//! The word record kept by the store.

use vstd::prelude::*;

verus! {

/// One vocabulary entry together with its learning statistics.
#[derive(Debug)]
pub struct Word {
    pub id: i32,
    pub word: String,
    pub definition: String,
    pub group_id: i32,
    pub marked: bool,
    pub last_seen: i32,
    pub times_seen: u8,
    pub success_count: u8,
}

/// A count one higher, unless it stands at the highest value already.
pub open spec fn bumped(count: u8) -> u8 {
    if count < u8::MAX {
        (count + 1) as u8
    } else {
        u8::MAX
    }
}

impl Word {
    /// A record is consistent when it was never answered correctly more often
    /// than it was answered.
    pub open spec fn wf(&self) -> bool {
        self.success_count <= self.times_seen
    }

    /// The record after one more answer at time `now`: the answer is counted,
    /// a right one is counted as a success too, and neither count passes the
    /// highest value it can hold.
    pub open spec fn graded(self, is_correct: bool, now: i32) -> Word {
        Word {
            last_seen: now,
            times_seen: bumped(self.times_seen),
            success_count: if is_correct {
                bumped(self.success_count)
            } else {
                self.success_count
            },
            ..self
        }
    }

    /// The record with its mark flipped.
    pub open spec fn toggled(self) -> Word {
        Word { marked: !self.marked, ..self }
    }

    /// Counts one answer given at time `now`.
    pub fn record_grade(&mut self, is_correct: bool, now: i32)
        ensures
            *final(self) == old(self).graded(is_correct, now),
            old(self).wf() ==> final(self).wf(),
    {
        self.last_seen = now;
        self.times_seen = self.times_seen.saturating_add(1);
        if is_correct {
            self.success_count = self.success_count.saturating_add(1);
        }
    }
}

/// Below the highest count, a right answer raises both counts by one and a
/// wrong answer raises only the number of answers.
pub proof fn lemma_grade_counts(w: Word, is_correct: bool, now: i32)
    requires
        w.times_seen < u8::MAX,
        w.success_count < u8::MAX,
    ensures
        w.graded(is_correct, now).times_seen == w.times_seen + 1,
        is_correct ==> w.graded(is_correct, now).success_count == w.success_count + 1,
        !is_correct ==> w.graded(is_correct, now).success_count == w.success_count,
{
}

impl Clone for Word {
    fn clone(&self) -> (copy: Self)
        ensures
            copy == *self,
    {
        Word {
            id: self.id,
            word: self.word.clone(),
            definition: self.definition.clone(),
            group_id: self.group_id,
            marked: self.marked,
            last_seen: self.last_seen,
            times_seen: self.times_seen,
            success_count: self.success_count,
        }
    }
}

} // verus!
