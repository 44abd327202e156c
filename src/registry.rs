//! The registry of reporters: each small integer id names one reporter's
//! handle. The sender looks handles up by id and never changes the registry.
use crate::channel::Sender;
use crate::event::ReporterEvent;
use vstd::prelude::*;

verus! {

/// The transmit handle of one reporter.
pub type ReporterTx = tokio::sync::mpsc::UnboundedSender<ReporterEvent>;

/// Reporter handles keyed by reporter id; each id occurs at most once.
pub struct Reporters {
    entries: Vec<(u8, ReporterTx)>,
}

impl Reporters {
    /// The registered ids, in registration order.
    pub closed spec fn ids(&self) -> Seq<u8> {
        self.entries@.map_values(|e: (u8, ReporterTx)| e.0)
    }

    /// The handles, position for position with `ids`.
    pub closed spec fn handles(&self) -> Seq<ReporterTx> {
        self.entries@.map_values(|e: (u8, ReporterTx)| e.1)
    }

    #[verifier::type_invariant]
    spec fn unique_ids(&self) -> bool {
        self.ids().no_duplicates()
    }

    /// An empty registry.
    pub fn new() -> (r: Reporters)
        ensures
            r.ids() == Seq::<u8>::empty(),
            r.handles() == Seq::<ReporterTx>::empty(),
    {
        let r = Reporters { entries: Vec::new() };
        assert(r.ids() =~= Seq::<u8>::empty());
        assert(r.handles() =~= Seq::<ReporterTx>::empty());
        r
    }

    /// The position of `id`, if it is registered.
    fn position(&self, id: u8) -> (r: Option<usize>)
        ensures
            r is None <==> !self.ids().contains(id),
            r is Some ==> r->0 < self.ids().len() && self.ids()[r->0 as int] == id,
    {
        let mut k: usize = 0;
        while k < self.entries.len()
            invariant
                k <= self.entries@.len(),
                forall|j: int| 0 <= j < k ==> self.ids()[j] != id,
            decreases self.entries@.len() - k,
        {
            if self.entries[k].0 == id {
                assert(self.ids()[k as int] == id);
                return Some(k);
            }
            k = k + 1;
        }
        None
    }

    /// The registry with `tx` registered under `id`, in place of the handle
    /// that `id` had.
    pub fn insert(self, id: u8, tx: ReporterTx) -> (r: Reporters)
        ensures
            self.ids().contains(id) ==> {
                &&& r.ids() == self.ids()
                &&& r.handles() == self.handles().update(self.ids().index_of(id), tx)
            },
            !self.ids().contains(id) ==> {
                &&& r.ids() == self.ids().push(id)
                &&& r.handles() == self.handles().push(tx)
            },
    {
        proof {
            use_type_invariant(&self);
        }
        let pos = self.position(id);
        let ghost ids = self.ids();
        let ghost handles = self.handles();
        let Reporters { mut entries } = self;
        match pos {
            Some(k) => {
                assert(ids[k as int] == id);
                assert(ids.index_of(id) == k);
                entries.set(k, (id, tx));
                assert(entries@.map_values(|e: (u8, ReporterTx)| e.0) =~= ids);
                let r = Reporters { entries };
                assert(r.ids() =~= ids);
                assert(r.handles() =~= handles.update(k as int, tx));
                r
            },
            None => {
                entries.push((id, tx));
                assert(entries@.map_values(|e: (u8, ReporterTx)| e.0) =~= ids.push(id));
                let r = Reporters { entries };
                assert(r.ids() =~= ids.push(id));
                assert(r.handles() =~= handles.push(tx));
                r
            },
        }
    }

    /// The handle registered under `id`.
    pub fn get(&self, id: u8) -> (r: Option<&ReporterTx>)
        ensures
            r is None <==> !self.ids().contains(id),
            r is Some ==> *r->0 == self.handles()[self.ids().index_of(id)],
    {
        proof {
            use_type_invariant(self);
        }
        match self.position(id) {
            Some(k) => {
                assert(self.ids()[k as int] == id);
                assert(self.ids().index_of(id) == k);
                Some(&self.entries[k].1)
            },
            None => None,
        }
    }

    /// The registered ids, in registration order.
    pub fn ids_vec(&self) -> (r: Vec<u8>)
        ensures
            r@ == self.ids(),
            r@.no_duplicates(),
    {
        proof {
            use_type_invariant(self);
        }
        let mut out: Vec<u8> = Vec::new();
        let mut k: usize = 0;
        while k < self.entries.len()
            invariant
                k <= self.entries@.len(),
                out@ == self.ids().take(k as int),
            decreases self.entries@.len() - k,
        {
            out.push(self.entries[k].0);
            assert(self.ids().take(k as int + 1) =~= self.ids().take(k as int).push(self.ids()[k as int]));
            k = k + 1;
        }
        assert(self.ids().take(k as int) =~= self.ids());
        out
    }

    /// The number of reporters.
    pub fn len(&self) -> (r: usize)
        ensures
            r == self.ids().len(),
    {
        self.entries.len()
    }
}

} // verus!
