use vstd::prelude::*;

verus! {

/// Outcome of one step of a run.
#[derive(Debug, PartialEq, Eq)]
pub enum StepResult {
    Success,
    Failure,
    Ignored,
    Skipped(String),
}

impl StepResult {
    /// Only an outright failure makes the whole run fail.
    pub open spec fn is_failure(&self) -> bool {
        self is Failure
    }

    pub fn failed(&self) -> (r: bool)
        ensures
            r == self.is_failure(),
    {
        match self {
            StepResult::Failure => true,
            StepResult::Success | StepResult::Ignored | StepResult::Skipped(_) => false,
        }
    }
}

/// One line of a report: the step's display key and its outcome.
pub type Entry = (String, StepResult);

/// The entries after pushing `e`: an absent entry leaves them as they are.
pub open spec fn after_push(entries: Seq<Entry>, e: Option<Entry>) -> Seq<Entry> {
    match e {
        Some(x) => entries.push(x),
        None => entries,
    }
}

/// The entries after pushing each of `es`, first to last.
pub open spec fn after_pushes(entries: Seq<Entry>, es: Seq<Option<Entry>>) -> Seq<Entry>
    decreases es.len(),
{
    if es.len() == 0 {
        entries
    } else {
        after_push(after_pushes(entries, es.drop_last()), es.last())
    }
}

/// The present entries among `es`, in their order.
pub open spec fn present(es: Seq<Option<Entry>>) -> Seq<Entry>
    decreases es.len(),
{
    if es.len() == 0 {
        Seq::empty()
    } else {
        match es.last() {
            Some(x) => present(es.drop_last()).push(x),
            None => present(es.drop_last()),
        }
    }
}

/// Whether some entry of `entries` has the key `k`.
pub open spec fn holds_key(entries: Seq<Entry>, k: Seq<char>) -> bool {
    exists|i: int| 0 <= i < entries.len() && (#[trigger] entries[i]).0@ == k
}

/// The ordered outcomes of a run, in the order the steps were recorded.
///
/// Keys are meant to be unique. A report made by `with_key_checks` holds
/// every caller to that: pushing a key it already holds is a defect, ruled
/// out by `push_result`'s precondition. A report made by `new` accepts a
/// repeated key and keeps both entries.
pub struct Report {
    data: Vec<Entry>,
    key_checks: bool,
}

impl Report {
    pub closed spec fn entries(&self) -> Seq<Entry> {
        self.data@
    }

    pub closed spec fn checks_keys(&self) -> bool {
        self.key_checks
    }

    /// Whether `push_result` may be given `e`.
    pub open spec fn accepts(&self, e: Option<Entry>) -> bool {
        match e {
            Some(x) => self.checks_keys() ==> !holds_key(self.entries(), x.0@),
            None => true,
        }
    }

    /// An empty report that accepts repeated keys.
    pub fn new() -> (r: Self)
        ensures
            r.entries() == Seq::<Entry>::empty(),
            !r.checks_keys(),
    {
        Report { data: Vec::new(), key_checks: false }
    }

    /// An empty report that demands unique keys.
    pub fn with_key_checks() -> (r: Self)
        ensures
            r.entries() == Seq::<Entry>::empty(),
            r.checks_keys(),
    {
        Report { data: Vec::new(), key_checks: true }
    }

    /// Appends the entry, if there is one.
    pub fn push_result(&mut self, result: Option<Entry>)
        requires
            old(self).accepts(result),
        ensures
            final(self).entries() == after_push(old(self).entries(), result),
            final(self).checks_keys() == old(self).checks_keys(),
    {
        if let Some(entry) = result {
            self.data.push(entry);
        }
    }

    pub fn data(&self) -> (r: &Vec<Entry>)
        ensures
            r@ == self.entries(),
    {
        &self.data
    }

    pub fn key_checks(&self) -> (r: bool)
        ensures
            r == self.checks_keys(),
    {
        self.key_checks
    }

    /// Whether an entry with this key has been recorded.
    pub fn has_key(&self, key: &String) -> (r: bool)
        ensures
            r == holds_key(self.entries(), key@),
    {
        let mut i: usize = 0;
        while i < self.data.len()
            invariant
                0 <= i <= self.data@.len(),
                forall|j: int| 0 <= j < i ==> (#[trigger] self.data@[j]).0@ != key@,
            decreases self.data@.len() - i,
        {
            if self.data[i].0 == *key {
                return true;
            }
            i = i + 1;
        }
        false
    }
}

/// Pushing entries one by one leaves the present ones after the earlier
/// entries, in the order they were pushed.
pub proof fn lemma_insertion_order(entries: Seq<Entry>, es: Seq<Option<Entry>>)
    ensures
        after_pushes(entries, es) == entries + present(es),
    decreases es.len(),
{
    if es.len() > 0 {
        lemma_insertion_order(entries, es.drop_last());
        match es.last() {
            Some(x) => {
                assert(entries + present(es.drop_last()).push(x)
                    =~= (entries + present(es.drop_last())).push(x));
            },
            None => {},
        }
    } else {
        assert(entries + Seq::<Entry>::empty() =~= entries);
    }
}

/// A report that accepts repeated keys keeps both entries of a key pushed
/// twice: nothing is merged or dropped.
pub proof fn lemma_repeated_key_kept(r: Report, k: String, a: StepResult, b: StepResult)
    requires
        !r.checks_keys(),
    ensures
        r.accepts(Some((k, a))),
        r.accepts(Some((k, b))),
        after_push(after_push(r.entries(), Some((k, a))), Some((k, b))).len()
            == r.entries().len() + 2,
        after_push(after_push(r.entries(), Some((k, a))), Some((k, b))).last() == (k, b),
        after_push(after_push(r.entries(), Some((k, a))), Some((k, b)))[r.entries().len() as int]
            == (k, a),
{
}

} // verus!
