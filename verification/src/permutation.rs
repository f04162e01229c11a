//! The label table of the face: which label is painted at which slot.

use rand::seq::SliceRandom;
use vstd::prelude::*;
use vstd::seq_lib::seq_to_set_is_finite;
use vstd::set_lib::{lemma_int_range, lemma_subset_equality, set_int_range};

verus! {

/// One of the twelve fixed angular positions of the face, `0..=11`.
/// Slot `s` lies `s` twelfths of a turn from the reference axis.
pub type ClockSlot = u8;

/// The number painted at a slot, `1..=12`.
pub type FaceLabel = u8;

/// Why a label table is not a bijection from the slots onto the labels.
#[derive(Debug, Clone, Copy, PartialEq, Eq, Structural)]
pub enum PreconditionError {
    /// The table does not have exactly twelve entries.
    SlotCount,
    /// Some entry is not a label in `1..=12`.
    LabelRange,
    /// Some label is painted at two slots, so another one is missing.
    DuplicateLabel,
}

/// `l` is one of the labels `1..=12`.
pub open spec fn is_label(l: int) -> bool {
    1 <= l <= 12
}

/// `s` is one of the slots `0..=11`.
pub open spec fn is_slot(s: int) -> bool {
    0 <= s < 12
}

/// Every entry of `labels` is a label.
pub open spec fn all_labels(labels: Seq<u8>) -> bool {
    forall|s: int| 0 <= s < labels.len() ==> is_label(#[trigger] labels[s] as int)
}

/// `labels`, read as slot -> label, maps the twelve slots one-to-one into the
/// twelve labels (and so onto them, see `lemma_every_label_painted`).
pub open spec fn is_bijection(labels: Seq<u8>) -> bool {
    &&& labels.len() == 12
    &&& all_labels(labels)
    &&& labels.no_duplicates()
}

/// What is wrong with `labels`, if anything. The slot count is judged first,
/// then the range of the labels, then their distinctness.
pub open spec fn violation(labels: Seq<u8>) -> Option<PreconditionError> {
    if labels.len() != 12 {
        Some(PreconditionError::SlotCount)
    } else if !all_labels(labels) {
        Some(PreconditionError::LabelRange)
    } else if !labels.no_duplicates() {
        Some(PreconditionError::DuplicateLabel)
    } else {
        None
    }
}

/// The face with the labels in ascending order from the axis: slot `s` holds
/// label `s + 1`.
pub open spec fn ascending_face() -> Seq<u8> {
    Seq::new(12, |s: int| (s + 1) as u8)
}

/// The face of a plain clock: label 12 on the axis, then slot `s` holds label
/// `s`.
pub open spec fn dial_face() -> Seq<u8> {
    Seq::new(
        12,
        |s: int|
            if s == 0 {
                12u8
            } else {
                s as u8
            },
    )
}

/// The slot at which `label` is painted. In a bijection there is exactly one
/// (`lemma_slot_of`); in any other table this is some slot that holds the
/// label, if there is one.
pub open spec fn slot_of(labels: Seq<u8>, label: int) -> int {
    choose|s: int| 0 <= s < labels.len() && labels[s] == label
}

/// A bijection leaves no label out: twelve distinct labels on twelve slots
/// are all of `1..=12`.
pub proof fn lemma_every_label_painted(labels: Seq<u8>, label: int)
    requires
        is_bijection(labels),
        is_label(label),
    ensures
        exists|s: int| 0 <= s < 12 && labels[s] == label,
{
    let ints = labels.map_values(|l: u8| l as int);
    let painted = ints.to_set();
    let all = set_int_range(1, 13);
    assert(ints.no_duplicates());
    ints.unique_seq_to_set();
    seq_to_set_is_finite(ints);
    lemma_int_range(1, 13);
    assert forall|l: int| painted.contains(l) implies all.contains(l) by {
        let s = choose|s: int| 0 <= s < ints.len() && ints[s] == l;
        assert(is_label(labels[s] as int));
    }
    lemma_subset_equality(painted, all);
    assert(all.contains(label));
    assert(ints.contains(label));
    let s = choose|s: int| 0 <= s < ints.len() && ints[s] == label;
    assert(labels[s] == label);
}

/// In a bijection `slot_of` is the inverse of the table: it names the one
/// slot that holds the label.
pub proof fn lemma_slot_of(labels: Seq<u8>, label: int)
    requires
        is_bijection(labels),
        is_label(label),
    ensures
        is_slot(slot_of(labels, label)),
        labels[slot_of(labels, label)] == label,
        forall|s: int| 0 <= s < 12 && labels[s] == label ==> s == slot_of(labels, label),
{
    lemma_every_label_painted(labels, label);
}

/// Rearranging a bijection gives a bijection: a table that holds the same
/// labels, each as often, is one if the first is.
pub proof fn lemma_rearranged_bijection(before: Seq<u8>, after: Seq<u8>)
    requires
        is_bijection(before),
        before.to_multiset() == after.to_multiset(),
    ensures
        is_bijection(after),
{
    before.to_multiset_ensures();
    after.to_multiset_ensures();
    before.lemma_multiset_has_no_duplicates();
    after.lemma_multiset_has_no_duplicates_conv();
    assert forall|s: int| 0 <= s < after.len() implies is_label(#[trigger] after[s] as int) by {
        assert(after.contains(after[s]));
        assert(after.to_multiset().count(after[s]) > 0);
        assert(before.to_multiset().count(after[s]) > 0);
        let k = choose|k: int| 0 <= k < before.len() && before[k] == after[s];
        assert(is_label(before[k] as int));
    }
}

/// Shuffles the table in place with `rand::seq::SliceRandom::shuffle`, drawing
/// from the generator that `rand::thread_rng` hands out. The shuffle does
/// nothing but swap entries, so whichever numbers are drawn the table holds
/// the same labels afterwards, each as often as before. Which order comes out
/// is left open. The generator panics where the system has no randomness to
/// give it, when it is first seeded or when it is seeded anew after a run of
/// draws.
#[verifier::external_body]
fn shuffle_labels(labels: &mut Vec<u8>)
    ensures
        final(labels)@.to_multiset() == old(labels)@.to_multiset(),
{
    labels.shuffle(&mut rand::thread_rng());
}

/// A table of labels by slot. It may hold any table; `wf` says that it is a
/// bijection, and `validate` decides that.
#[derive(Debug)]
pub struct Permutation {
    labels: Vec<u8>,
}

impl Clone for Permutation {
    fn clone(&self) -> (p: Permutation)
        ensures
            p@ == self@,
    {
        Permutation { labels: self.labels.clone() }
    }
}

impl View for Permutation {
    type V = Seq<u8>;

    closed spec fn view(&self) -> Seq<u8> {
        self.labels@
    }
}

impl Permutation {
    /// Every label `1..=12` is painted at exactly one of the twelve slots.
    pub open spec fn wf(&self) -> bool {
        is_bijection(self@)
    }

    /// Wraps a table of labels by slot, whatever it holds.
    pub fn new(labels: Vec<u8>) -> (p: Permutation)
        ensures
            p@ == labels@,
    {
        Permutation { labels }
    }

    /// The face with the labels in ascending order from the axis.
    pub fn ascending() -> (p: Permutation)
        ensures
            p@ == ascending_face(),
            p.wf(),
    {
        let mut labels: Vec<u8> = Vec::new();
        let mut l: u8 = 1;
        while l <= 12
            invariant
                1 <= l <= 13,
                labels@.len() == l - 1,
                forall|s: int| 0 <= s < labels@.len() ==> labels@[s] == s + 1,
            decreases 13 - l,
        {
            labels.push(l);
            l += 1;
        }
        assert(labels@ =~= ascending_face());
        Permutation { labels }
    }

    /// A face drawn at random: the ascending face, shuffled.
    pub fn generate() -> (p: Permutation)
        ensures
            p.wf(),
            p@.to_multiset() == ascending_face().to_multiset(),
    {
        let mut labels = Permutation::ascending().labels;
        let ghost unshuffled = labels@;
        shuffle_labels(&mut labels);
        proof {
            lemma_rearranged_bijection(unshuffled, labels@);
        }
        Permutation { labels }
    }

    /// The table, label by slot.
    pub fn labels(&self) -> (labels: &Vec<u8>)
        ensures
            labels@ == self@,
    {
        &self.labels
    }

    /// Decides whether the table is a bijection, and says what is wrong if not.
    pub fn validate(&self) -> (r: Result<(), PreconditionError>)
        ensures
            r is Ok <==> self.wf(),
            r == (match violation(self@) {
                Some(e) => Err::<(), PreconditionError>(e),
                None => Ok(()),
            }),
    {
        if self.labels.len() != 12 {
            return Err(PreconditionError::SlotCount);
        }
        let mut s: usize = 0;
        while s < 12
            invariant
                s <= 12,
                self.labels@.len() == 12,
                forall|k: int| 0 <= k < s ==> is_label(#[trigger] self.labels@[k] as int),
            decreases 12 - s,
        {
            let l: u8 = self.labels[s];
            if l < 1 || l > 12 {
                return Err(PreconditionError::LabelRange);
            }
            s += 1;
        }
        let mut i: usize = 0;
        while i < 12
            invariant
                i <= 12,
                self.labels@.len() == 12,
                all_labels(self.labels@),
                forall|a: int, b: int| 0 <= a < i && a < b < 12 ==> self.labels@[a] != self.labels@[b],
            decreases 12 - i,
        {
            let mut j: usize = i + 1;
            while j < 12
                invariant
                    i < j <= 12,
                    self.labels@.len() == 12,
                    all_labels(self.labels@),
                    forall|b: int| i < b < j ==> self.labels@[i as int] != self.labels@[b],
                decreases 12 - j,
            {
                if self.labels[i] == self.labels[j] {
                    return Err(PreconditionError::DuplicateLabel);
                }
                j += 1;
            }
            i += 1;
        }
        Ok(())
    }

    /// The slot at which `label` is painted, found by walking the slots in
    /// order.
    pub fn slot_of(&self, label: FaceLabel) -> (s: ClockSlot)
        requires
            self.wf(),
            is_label(label as int),
        ensures
            s == slot_of(self@, label as int),
            s < 12,
            self@[s as int] == label,
    {
        proof {
            lemma_slot_of(self@, label as int);
        }
        let mut s: u8 = 0;
        while self.labels[s as usize] != label
            invariant
                0 <= s <= slot_of(self@, label as int) < 12,
                self@.len() == 12,
                self@[slot_of(self@, label as int)] == label,
            decreases 12 - s,
        {
            s += 1;
        }
        s
    }

    /// The label painted at `slot`.
    pub fn label_at(&self, slot: ClockSlot) -> (l: FaceLabel)
        requires
            self.wf(),
            is_slot(slot as int),
        ensures
            l == self@[slot as int],
            is_label(l as int),
            slot_of(self@, l as int) == slot,
    {
        proof {
            lemma_slot_of(self@, self@[slot as int] as int);
        }
        self.labels[slot as usize]
    }
}

} // verus!
