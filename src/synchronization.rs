use vstd::prelude::*;

verus! {

/// The capacity of the channel between a datasource and the store.
pub const CHANNEL_CAPACITY: usize = 32;

/// The bookkeeping of one synchronization run: every document that arrives
/// is stored, in arrival order, and a failed store is recorded and does not
/// stop the run.
pub struct Synchronization {
    attempted: Vec<String>,
    failed: Vec<(String, String)>,
}

/// What a finished synchronization reports.
#[derive(Debug)]
pub struct Report {
    /// External ids of the documents whose store was attempted, in order.
    pub attempted: Vec<String>,
    /// External id and failure description of each failed store, in order.
    pub failed: Vec<(String, String)>,
}

impl Synchronization {
    /// External ids of the documents whose store was attempted, in order.
    pub closed spec fn attempted(&self) -> Seq<Seq<char>> {
        self.attempted@.map_values(|s: String| s@)
    }

    /// External ids of the documents whose store failed, in order.
    pub closed spec fn failed(&self) -> Seq<Seq<char>> {
        self.failed@.map_values(|f: (String, String)| f.0@)
    }

    pub fn new() -> (r: Synchronization)
        ensures
            r.attempted() == Seq::<Seq<char>>::empty(),
            r.failed() == Seq::<Seq<char>>::empty(),
    {
        let r = Synchronization { attempted: Vec::new(), failed: Vec::new() };
        assert(r.attempted() =~= Seq::<Seq<char>>::empty());
        assert(r.failed() =~= Seq::<Seq<char>>::empty());
        r
    }

    /// Records the outcome of storing the document with external id
    /// `external_id`, the next one to arrive. A failure is kept and the run
    /// goes on: every later document is still attempted.
    pub fn record(&mut self, external_id: &str, outcome: Result<(), String>)
        ensures
            final(self).attempted() == old(self).attempted().push(external_id@),
            outcome is Ok ==> final(self).failed() == old(self).failed(),
            outcome is Err ==> final(self).failed() == old(self).failed().push(external_id@),
    {
        self.attempted.push(external_id.to_owned());
        assert(self.attempted() =~= old(self).attempted().push(external_id@));
        match outcome {
            Ok(()) => {},
            Err(description) => {
                self.failed.push((external_id.to_owned(), description));
                assert(self.failed() =~= old(self).failed().push(external_id@));
            },
        }
    }

    /// Ends the run once the datasource has signalled the end of its stream
    /// and every buffered document has been handled. The run succeeds
    /// whatever failed along the way.
    pub fn finish(self) -> (r: Result<Report, ()>)
        ensures
            r matches Ok(report) && report.attempted@.map_values(|s: String| s@)
                == self.attempted() && report.failed@.map_values(|f: (String, String)| f.0@)
                == self.failed(),
    {
        Ok(Report { attempted: self.attempted, failed: self.failed })
    }
}

} // verus!
