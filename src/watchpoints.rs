//! The memory addresses whose bytes are shown each frame.
use vstd::prelude::*;
use crate::text_entry::{parse_address, parse_address_text};
use crate::unique_seq::{lemma_push_fresh, lemma_remove_unique};

verus! {

/// The set of addresses after a text entry: the address it names in
/// hexadecimal put in, or the same set when the entry names none.
pub open spec fn after_address_entry(addresses: Set<u16>, entry: Seq<char>) -> Set<u16> {
    match parse_address(entry) {
        Some(a) => addresses.insert(a as u16),
        None => addresses,
    }
}

/// 16-bit addresses to observe, each at most once, in the order they were set.
/// Only addresses are kept: every byte shown is read afresh.
pub struct WatchpointSet {
    addresses: Vec<u16>,
}

impl View for WatchpointSet {
    type V = Seq<u16>;

    closed spec fn view(&self) -> Seq<u16> {
        self.addresses@
    }
}

impl WatchpointSet {
    /// No address is listed twice.
    pub open spec fn wf(&self) -> bool {
        self@.no_duplicates()
    }

    /// The addresses as a set.
    pub open spec fn members(&self) -> Set<u16> {
        self@.to_set()
    }

    pub fn new() -> (r: WatchpointSet)
        ensures
            r.wf(),
            r@ == Seq::<u16>::empty(),
            r.members() == Set::<u16>::empty(),
    {
        let r = WatchpointSet { addresses: Vec::new() };
        assert(r.members() =~= Set::<u16>::empty());
        r
    }

    /// The addresses in the order in which they were set.
    pub fn addresses(&self) -> (r: &Vec<u16>)
        ensures
            r@ == self@,
    {
        &self.addresses
    }

    /// Takes every entry out.
    pub fn clear(&mut self)
        ensures
            final(self).wf(),
            final(self)@ == Seq::<u16>::empty(),
            final(self).members() == Set::<u16>::empty(),
    {
        self.addresses = Vec::new();
        assert(self.members() =~= Set::<u16>::empty());
    }

    pub fn len(&self) -> (r: usize)
        ensures
            r == self@.len(),
    {
        self.addresses.len()
    }

    fn index_of(&self, address: u16) -> (r: Option<usize>)
        ensures
            r.is_some() ==> r.unwrap() < self@.len() && self@[r.unwrap() as int] == address,
            r.is_none() ==> !self@.contains(address),
    {
        let mut i: usize = 0;
        while i < self.addresses.len()
            invariant
                i <= self@.len(),
                forall|j: int| 0 <= j < i ==> self@[j] != address,
            decreases self@.len() - i,
        {
            if self.addresses[i] == address {
                return Some(i);
            }
            i = i + 1;
        }
        None
    }

    pub fn contains(&self, address: u16) -> (r: bool)
        ensures
            r == self@.contains(address),
            r == self.members().contains(address),
    {
        match self.index_of(address) {
            Some(i) => {
                assert(self@[i as int] == address);
                true
            },
            None => false,
        }
    }

    /// Watches `address`; one already watched stays listed once.
    pub fn add(&mut self, address: u16)
        requires
            old(self).wf(),
        ensures
            final(self).wf(),
            final(self).members() == old(self).members().insert(address),
            old(self)@.contains(address) ==> final(self)@ == old(self)@,
            !old(self)@.contains(address) ==> final(self)@ == old(self)@.push(address),
    {
        if !self.contains(address) {
            proof {
                lemma_push_fresh(self@, address);
            }
            self.addresses.push(address);
        } else {
            assert(self@.to_set().insert(address) =~= self@.to_set());
        }
    }

    /// Stops watching `address`; an address not watched is left as it is.
    pub fn remove(&mut self, address: u16)
        requires
            old(self).wf(),
        ensures
            final(self).wf(),
            final(self).members() == old(self).members().remove(address),
            !old(self)@.contains(address) ==> final(self)@ == old(self)@,
            old(self)@.contains(address) ==> final(self)@.len() == old(self)@.len() - 1,
    {
        match self.index_of(address) {
            Some(i) => {
                proof {
                    lemma_remove_unique(self@, i as int);
                }
                self.addresses.remove(i);
            },
            None => {
                assert(self@.to_set().remove(address) =~= self@.to_set());
            },
        }
    }

    /// Watches the address that `raw` names in hexadecimal (either case), and
    /// empties `raw` whether or not it named one; text that names no address
    /// is dropped without a word.
    pub fn add_from_text(&mut self, raw: &mut String)
        requires
            old(self).wf(),
        ensures
            final(self).wf(),
            final(raw)@ == Seq::<char>::empty(),
            final(self).members() == after_address_entry(old(self).members(), old(raw)@),
            parse_address(old(raw)@).is_none() ==> final(self)@ == old(self)@,
    {
        match parse_address_text(raw.as_str()) {
            Some(address) => self.add(address),
            None => {},
        }
        *raw = String::new();
    }

    /// Pairs each watched address, in order, with the byte that `read_byte`
    /// returns for it, asking once per address.
    pub fn watch_list<F: Fn(u16) -> u8>(&self, read_byte: F) -> (r: Vec<(u16, u8)>)
        requires
            forall|a: u16| read_byte.requires((a,)),
        ensures
            r@.len() == self@.len(),
            forall|i: int|
                0 <= i < self@.len() ==> (#[trigger] r@[i]).0 == self@[i] && read_byte.ensures(
                    (self@[i],),
                    r@[i].1,
                ),
    {
        let mut out: Vec<(u16, u8)> = Vec::new();
        let mut i: usize = 0;
        while i < self.addresses.len()
            invariant
                i <= self@.len(),
                out@.len() == i,
                forall|a: u16| read_byte.requires((a,)),
                forall|j: int|
                    0 <= j < i ==> (#[trigger] out@[j]).0 == self@[j] && read_byte.ensures(
                        (self@[j],),
                        out@[j].1,
                    ),
            decreases self@.len() - i,
        {
            let a = self.addresses[i];
            let v = read_byte(a);
            out.push((a, v));
            i = i + 1;
        }
        out
    }
}

} // verus!
