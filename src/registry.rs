//! The sessions of one run, keyed by the address of their bot.
use vstd::prelude::*;

verus! {

/// Whether the two texts are equal, character by character.
pub fn same_text(a: &str, b: &str) -> (r: bool)
    ensures
        r == (a@ == b@),
{
    let n = a.unicode_len();
    if n != b.unicode_len() {
        return false;
    }
    let mut i: usize = 0;
    while i < n
        invariant
            n == a@.len() == b@.len(),
            0 <= i <= n,
            a@.subrange(0, i as int) == b@.subrange(0, i as int),
        decreases n - i,
    {
        if a.get_char(i) != b.get_char(i) {
            assert(a@[i as int] != b@[i as int]);
            return false;
        }
        assert(a@.subrange(0, i + 1) =~= a@.subrange(0, i as int).push(a@[i as int]));
        assert(b@.subrange(0, i + 1) =~= b@.subrange(0, i as int).push(b@[i as int]));
        i = i + 1;
    }
    assert(a@ =~= a@.subrange(0, n as int));
    assert(b@ =~= b@.subrange(0, n as int));
    true
}

/// The addresses of the sessions started so far, in the order they were
/// started. A session is known by its position; the caller keeps the
/// session's engine at the same position.
pub struct Registry {
    pub addrs: Vec<String>,
}

impl Registry {
    /// The addresses, as text.
    pub open spec fn view(&self) -> Seq<Seq<char>> {
        self.addrs@.map_values(|a: String| a@)
    }

    /// No address is registered twice.
    pub open spec fn wf(&self) -> bool {
        forall|i: int, j: int|
            0 <= i < j < self@.len() ==> #[trigger] self@[i] != #[trigger] self@[j]
    }

    /// An empty registry.
    pub fn new() -> (r: Self)
        ensures
            r.wf(),
            r@.len() == 0,
    {
        Registry { addrs: Vec::new() }
    }

    pub fn len(&self) -> (r: usize)
        ensures
            r == self@.len(),
    {
        self.addrs.len()
    }

    /// The position of the session for `addr`, if there is one.
    pub fn find(&self, addr: &str) -> (r: Option<usize>)
        ensures
            match r {
                Some(i) => i < self@.len() && self@[i as int] == addr@,
                None => !self@.contains(addr@),
            },
    {
        let mut i: usize = 0;
        while i < self.addrs.len()
            invariant
                0 <= i <= self@.len(),
                self@.len() == self.addrs@.len(),
                forall|j: int| 0 <= j < i ==> self@[j] != addr@,
            decreases self.addrs.len() - i,
        {
            if same_text(self.addrs[i].as_str(), addr) {
                return Some(i);
            }
            i = i + 1;
        }
        None
    }

    /// Registers a session for `addr`, which has none yet; the result is its
    /// position.
    pub fn add(&mut self, addr: String) -> (r: usize)
        requires
            old(self).wf(),
            !old(self)@.contains(addr@),
        ensures
            final(self).wf(),
            final(self)@ == old(self)@.push(addr@),
            r == old(self)@.len(),
    {
        let r = self.addrs.len();
        self.addrs.push(addr);
        assert(self@ =~= old(self)@.push(addr@));
        r
    }
}

} // verus!
