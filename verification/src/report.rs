//! Append-only log of named step outcomes.

use vstd::prelude::*;

verus! {

/// Holds exactly when every recorded entry succeeded; vacuously true of an
/// empty log, so a run where every step was skipped counts as a success.
pub open spec fn all_ok(s: Seq<(Seq<char>, bool)>) -> bool {
    forall|i: int| 0 <= i < s.len() ==> s[i].1
}

/// Ordered log of `(step name, succeeded)` records, in execution order.
/// A record is appended for every step that actually ran; skipped steps
/// leave no trace here.
pub struct Report {
    records: Vec<(String, bool)>,
}

impl View for Report {
    type V = Seq<(Seq<char>, bool)>;

    closed spec fn view(&self) -> Seq<(Seq<char>, bool)> {
        self.records@.map_values(|r: (String, bool)| (r.0@, r.1))
    }
}

impl Report {
    /// An empty report.
    pub fn new() -> (r: Report)
        ensures
            r@ == Seq::<(Seq<char>, bool)>::empty(),
    {
        let r = Report { records: Vec::new() };
        proof {
            assert(r@ =~= Seq::<(Seq<char>, bool)>::empty());
        }
        r
    }

    /// Appends the outcome of a step that ran; `None` (a skipped step)
    /// changes nothing, not even the length of the log.
    pub fn push_result(&mut self, result: Option<(String, bool)>)
        ensures
            match result {
                Option::None => final(self)@ == old(self)@,
                Option::Some(entry) => final(self)@ == old(self)@.push((entry.0@, entry.1)),
            },
    {
        match result {
            Option::None => {},
            Option::Some(entry) => {
                self.records.push(entry);
                proof {
                    assert(self@ =~= old(self)@.push((entry.0@, entry.1)));
                }
            },
        }
    }

    /// The recorded entries, oldest first.
    pub fn data(&self) -> (r: &Vec<(String, bool)>)
        ensures
            r@.map_values(|p: (String, bool)| (p.0@, p.1)) == self@,
            r@.len() == self@.len(),
    {
        &self.records
    }

    /// True iff no recorded entry failed.
    pub fn all_succeeded(&self) -> (b: bool)
        ensures
            b == all_ok(self@),
    {
        let n = self.records.len();
        let mut i: usize = 0;
        while i < n
            invariant
                i <= n,
                n == self.records.len(),
                forall|j: int| 0 <= j < i ==> self@[j].1,
            decreases n - i,
        {
            if !self.records[i].1 {
                proof {
                    assert(!self@[i as int].1);
                }
                return false;
            }
            i = i + 1;
        }
        true
    }
}

/// An empty report counts as an overall success.
pub proof fn lemma_empty_report_succeeds()
    ensures
        all_ok(Seq::<(Seq<char>, bool)>::empty()),
{
}

/// Overall success holds exactly when no recorded entry carries `false`.
pub proof fn lemma_all_ok_iff_no_failure(s: Seq<(Seq<char>, bool)>)
    ensures
        all_ok(s) <==> !(exists|i: int| 0 <= i < s.len() && !s[i].1),
{
}

/// Recording an outcome under a name that is already present appends a
/// second record: the log never overwrites or merges entries.
pub proof fn lemma_push_no_merge(s: Seq<(Seq<char>, bool)>, name: Seq<char>)
    ensures
        ({
            let t = s.push((name, true)).push((name, false));
            &&& t.len() == s.len() + 2
            &&& t[s.len() as int] == (name, true)
            &&& t[s.len() as int + 1] == (name, false)
        }),
{
}

} // verus!
