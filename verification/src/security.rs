//! The trust record: the subjects that were approved, and the decision
//! whether a subject has to be asked about.

use vstd::prelude::*;
use crate::outside::{lowercase_text, to_lowercase, trim, trimmed_text};
use crate::text::same_text;

verus! {

/// No subject stands at two places of `s`.
pub open spec fn distinct_subjects(s: Seq<Seq<char>>) -> bool {
    forall|i: int, j: int| 0 <= i < j < s.len() ==> s[i] != s[j]
}

/// `s` with `subject` recorded: added at the end, unless it is there already.
pub open spec fn with_subject(s: Seq<Seq<char>>, subject: Seq<char>) -> Seq<Seq<char>> {
    if s.contains(subject) {
        s
    } else {
        s.push(subject)
    }
}

/// The subjects that were approved, in the order of their approval.
pub struct TrustStore {
    trusted: Vec<String>,
}

impl View for TrustStore {
    type V = Seq<Seq<char>>;

    closed spec fn view(&self) -> Seq<Seq<char>> {
        self.trusted.deep_view()
    }
}

impl TrustStore {
    #[verifier::type_invariant]
    spec fn subjects_differ(&self) -> bool {
        forall|i: int, j: int|
            0 <= i < j < self.trusted@.len() ==> (#[trigger] self.trusted@[i])@ != (
            #[trigger] self.trusted@[j])@
    }

    /// The record that approves nothing.
    pub fn new() -> (r: Self)
        ensures
            r@ == Seq::<Seq<char>>::empty(),
    {
        let r = TrustStore { trusted: Vec::new() };
        assert(r@ =~= Seq::<Seq<char>>::empty());
        r
    }

    /// The number of subjects. No subject is recorded twice.
    pub fn len(&self) -> (n: usize)
        ensures
            n == self@.len(),
            distinct_subjects(self@),
    {
        proof {
            use_type_invariant(self);
            assert forall|i: int, j: int| 0 <= i < j < self@.len() implies self@[i] != self@[j] by {
                assert(self.trusted@[i]@ != self.trusted@[j]@);
            }
        }
        self.trusted.len()
    }

    /// The subject at place `i`.
    pub fn subject_at(&self, i: usize) -> (r: &String)
        requires
            i < self@.len(),
        ensures
            r@ == self@[i as int],
    {
        &self.trusted[i]
    }
}

/// Whether `name` was approved.
pub fn is_trusted(store: &TrustStore, name: &str) -> (r: bool)
    ensures
        r == store@.contains(name@),
{
    let n: usize = store.len();
    let mut i: usize = 0;
    while i < n
        invariant
            i <= n,
            n == store@.len(),
            forall|j: int| 0 <= j < i ==> store@[j] != name@,
        decreases n - i,
    {
        if same_text(store.subject_at(i).as_str(), name) {
            assert(store@[i as int] == name@);
            return true;
        }
        i = i + 1;
    }
    false
}

/// Records the approval of `name`. Approving twice is approving once. The
/// result tells whether the record changed.
pub fn trust(store: &mut TrustStore, name: &str) -> (changed: bool)
    ensures
        final(store)@ == with_subject(old(store)@, name@),
        changed == !old(store)@.contains(name@),
        final(store)@.contains(name@),
{
    if is_trusted(store, name) {
        return false;
    }
    let ghost before = store@;
    proof {
        use_type_invariant(&*store);
    }
    let mut trusted: Vec<String> = Vec::new();
    std::mem::swap(&mut store.trusted, &mut trusted);
    trusted.push(name.to_owned());
    proof {
        assert(trusted.deep_view() =~= before.push(name@));
        assert forall|a: int, b: int| 0 <= a < b < trusted@.len() implies (#[trigger] trusted@[a])@
            != (#[trigger] trusted@[b])@ by {
            assert(trusted.deep_view()[a] == trusted@[a]@);
            assert(trusted.deep_view()[b] == trusted@[b]@);
            if b < before.len() {
                assert(before[a] == trusted@[a]@);
                assert(before[b] == trusted@[b]@);
            } else {
                assert(before[a] != name@);
            }
        }
    }
    store.trusted = trusted;
    proof {
        assert(store@[before.len() as int] == name@);
    }
    true
}

/// An answer counts as a yes where, trimmed and in lowercase, it reads `y`.
pub open spec fn affirmative(answer: Seq<char>) -> bool {
    lowercase_text(trimmed_text(answer)) == "y"@
}

/// Whether a trimmed, lowercase answer is the yes.
pub fn is_yes(normalized: &str) -> (r: bool)
    ensures
        r == (normalized@ == "y"@),
{
    same_text(normalized, "y")
}

/// Whether an answer as typed counts as a yes.
pub fn is_affirmative(answer: &str) -> (r: bool)
    ensures
        r == affirmative(answer@),
{
    let shortened = trim(answer);
    let lowered = to_lowercase(shortened.as_str());
    is_yes(lowered.as_str())
}

/// What to do about a subject.
#[derive(Clone, Copy, Debug, PartialEq, Eq, Structural)]
pub enum TrustDecision {
    /// It was approved before: go ahead.
    Trusted,
    /// It was approved just now, unasked, and the record has to be written
    /// back: then go ahead.
    Recorded,
    /// It has to be asked about.
    Ask,
}

/// The decision about `subject`, and the record after it.
pub open spec fn trust_decision(store: Seq<Seq<char>>, subject: Seq<char>, trust_new: bool) -> (
    TrustDecision,
    Seq<Seq<char>>,
) {
    if store.contains(subject) {
        (TrustDecision::Trusted, store)
    } else if trust_new {
        (TrustDecision::Recorded, store.push(subject))
    } else {
        (TrustDecision::Ask, store)
    }
}

/// Decides whether `name` may go ahead, has to be asked about, or, where new
/// subjects are trusted by default, is approved on the spot.
pub fn prompt_for_trust(store: &mut TrustStore, name: &str, trust_new: bool) -> (r: TrustDecision)
    ensures
        (r, final(store)@) == trust_decision(old(store)@, name@, trust_new),
{
    if is_trusted(store, name) {
        TrustDecision::Trusted
    } else if trust_new {
        trust(store, name);
        TrustDecision::Recorded
    } else {
        TrustDecision::Ask
    }
}

/// Takes the answer to the question about `name`. A yes approves `name`, and
/// the record has to be written back; anything else leaves the record as it
/// was. The result tells whether `name` may go ahead.
pub fn answer_trust(store: &mut TrustStore, name: &str, answer: &str) -> (granted: bool)
    ensures
        granted == affirmative(answer@),
        final(store)@ == if granted {
            with_subject(old(store)@, name@)
        } else {
            old(store)@
        },
{
    if is_affirmative(answer) {
        trust(store, name);
        true
    } else {
        false
    }
}

/// The record only grows: whatever is decided or answered, every subject
/// that was approved stays approved, in its place.
pub proof fn law_trust_record_only_grows(
    store: Seq<Seq<char>>,
    subject: Seq<char>,
    trust_new: bool,
)
    ensures
        store.is_prefix_of(with_subject(store, subject)),
        store.is_prefix_of(trust_decision(store, subject, trust_new).1),
{
}

/// A subject is asked about at most once: after its approval was recorded,
/// by default or by a yes, it is trusted without a question, and the record
/// stays as it is.
pub proof fn law_approved_subject_is_not_asked_again(
    store: Seq<Seq<char>>,
    subject: Seq<char>,
    trust_new: bool,
)
    ensures
        trust_decision(with_subject(store, subject), subject, trust_new) == (
            TrustDecision::Trusted,
            with_subject(store, subject),
        ),
        trust_decision(trust_decision(store, subject, true).1, subject, trust_new).0
            == TrustDecision::Trusted,
        with_subject(with_subject(store, subject), subject) == with_subject(store, subject),
{
    let after = with_subject(store, subject);
    if !store.contains(subject) {
        assert(after[store.len() as int] == subject);
    }
    assert(after.contains(subject));
}

} // verus!
