//! The pairing of source lines with the addresses at which they begin.
use vstd::prelude::*;

verus! {

/// `line` (1-based) is the first line whose instruction begins at `address`.
pub open spec fn is_first_line_at(symbols: Seq<u16>, address: u16, line: nat) -> bool {
    &&& 1 <= line <= symbols.len()
    &&& symbols[line - 1] == address
    &&& forall|j: int| 0 <= j < line - 1 ==> symbols[j] != address
}

/// No line begins at `address`.
pub open spec fn is_unmapped(symbols: Seq<u16>, address: u16) -> bool {
    forall|j: int| 0 <= j < symbols.len() ==> symbols[j] != address
}

/// The 1-based line whose instruction begins exactly at `address`; the first
/// such line should several begin there; `None` where none does.
pub open spec fn line_at(symbols: Seq<u16>, address: u16) -> Option<nat> {
    if is_unmapped(symbols, address) {
        None
    } else {
        Some(choose|line: nat| is_first_line_at(symbols, address, line))
    }
}

/// At most one line is the first to begin at an address.
pub proof fn lemma_first_line_unique(symbols: Seq<u16>, address: u16, a: nat, b: nat)
    requires
        is_first_line_at(symbols, address, a),
        is_first_line_at(symbols, address, b),
    ensures
        a == b,
{
    if a < b {
        assert(symbols[a - 1] != address);
    } else if b < a {
        assert(symbols[b - 1] != address);
    }
}

/// Some line begins at `address` exactly when `line_at` finds one.
pub proof fn lemma_line_at(symbols: Seq<u16>, address: u16, line: nat)
    requires
        is_first_line_at(symbols, address, line),
    ensures
        line_at(symbols, address) == Some(line),
{
    assert(!is_unmapped(symbols, address)) by {
        assert(symbols[line - 1] == address);
    }
    let c = choose|l: nat| is_first_line_at(symbols, address, l);
    lemma_first_line_unique(symbols, address, c, line);
}

/// Source lines with the address of each line's instruction ("debug symbols"):
/// entry `i` is where line `i + 1` begins. Fixed once loaded.
pub struct SourceMap {
    debug_symbols: Vec<u16>,
    source_file: Vec<String>,
}

impl View for SourceMap {
    type V = Seq<u16>;

    closed spec fn view(&self) -> Seq<u16> {
        self.debug_symbols@
    }
}

impl SourceMap {
    /// One address for each source line.
    pub closed spec fn wf(&self) -> bool {
        self.debug_symbols@.len() == self.source_file@.len()
    }

    /// The text of the source lines, in order.
    pub closed spec fn lines(&self) -> Seq<String> {
        self.source_file@
    }

    pub fn new(debug_symbols: Vec<u16>, source_file: Vec<String>) -> (r: SourceMap)
        requires
            debug_symbols@.len() == source_file@.len(),
        ensures
            r.wf(),
            r@ == debug_symbols@,
            r.lines() == source_file@,
    {
        SourceMap { debug_symbols, source_file }
    }

    /// The number of source lines.
    pub fn len(&self) -> (r: usize)
        requires
            self.wf(),
        ensures
            r == self@.len(),
            r == self.lines().len(),
    {
        self.debug_symbols.len()
    }

    /// The address at which source line `line` (1-based) begins.
    pub fn address_of(&self, line: usize) -> (r: Option<u16>)
        ensures
            1 <= line <= self@.len() ==> r == Some(self@[line - 1]),
            !(1 <= line <= self@.len()) ==> r.is_none(),
    {
        if line >= 1 && line <= self.debug_symbols.len() {
            Some(self.debug_symbols[line - 1])
        } else {
            None
        }
    }

    /// The text of source line `line` (1-based).
    pub fn source_line(&self, line: usize) -> (r: Option<&String>)
        requires
            self.wf(),
        ensures
            1 <= line <= self@.len() ==> r == Some(&self.lines()[line - 1]),
            !(1 <= line <= self@.len()) ==> r.is_none(),
    {
        if line >= 1 && line <= self.source_file.len() {
            Some(&self.source_file[line - 1])
        } else {
            None
        }
    }

    /// The source lines, in order.
    pub fn source_file(&self) -> (r: &Vec<String>)
        ensures
            r@ == self.lines(),
    {
        &self.source_file
    }

    /// The 1-based line whose instruction begins exactly at `address`; `None`
    /// where the address begins no line (between two mapped instructions, or
    /// outside the program).
    pub fn line_of(&self, address: u16) -> (r: Option<usize>)
        ensures
            r.is_some() == line_at(self@, address).is_some(),
            r.is_some() ==> r.unwrap() as nat == line_at(self@, address).unwrap(),
    {
        let n = self.debug_symbols.len();
        let mut i: usize = 0;
        while i < n
            invariant
                n == self@.len(),
                i <= n,
                forall|j: int| 0 <= j < i ==> self@[j] != address,
            decreases n - i,
        {
            if self.debug_symbols[i] == address {
                proof {
                    lemma_line_at(self@, address, (i + 1) as nat);
                }
                return Some(i + 1);
            }
            i = i + 1;
        }
        None
    }
}

} // verus!
