//! Account addresses and plain lists of them.
use vstd::prelude::*;

verus! {

/// A 32-byte account address.
#[derive(Clone, Copy, Debug, Eq, Hash, PartialOrd, Ord)]
pub struct Pubkey {
    pub bytes: [u8; 32],
}

impl PartialEq for Pubkey {
    fn eq(&self, other: &Pubkey) -> (r: bool) {
        let mut i: usize = 0;
        while i < 32
            invariant
                i <= 32,
                forall|j: int| 0 <= j < i ==> self.bytes[j] == other.bytes[j],
            decreases 32 - i,
        {
            if self.bytes[i] != other.bytes[i] {
                return false;
            }
            i = i + 1;
        }
        proof {
            assert(self.bytes =~= other.bytes);
        }
        true
    }
}

impl vstd::std_specs::cmp::PartialEqSpecImpl for Pubkey {
    open spec fn obeys_eq_spec() -> bool {
        true
    }

    open spec fn eq_spec(&self, other: &Pubkey) -> bool {
        *self == *other
    }
}

impl View for Pubkey {
    type V = Seq<u8>;

    open spec fn view(&self) -> Seq<u8> {
        self.bytes@
    }
}

/// Two addresses with the same bytes are the same address.
pub broadcast proof fn lemma_pubkey_bytes_determine(a: Pubkey, b: Pubkey)
    requires
        #[trigger] a@ == #[trigger] b@,
    ensures
        a == b,
{
    assert forall|i: int| 0 <= i < 32 implies a.bytes[i] == b.bytes[i] by {
        assert(a@[i] == b@[i]);
    }
    assert(a.bytes =~= b.bytes);
}

/// The all-zero address, which is also the address of the system program.
pub open spec fn zero_pubkey() -> Seq<u8> {
    Seq::new(32, |i: int| 0u8)
}

impl Pubkey {
    pub fn new(bytes: [u8; 32]) -> (r: Pubkey)
        ensures
            r.bytes == bytes,
    {
        Pubkey { bytes }
    }

    /// True exactly for the address with these bytes.
    pub fn is(&self, bytes: &[u8; 32]) -> (r: bool)
        ensures
            r == (self.bytes == *bytes),
    {
        *self == Pubkey { bytes: *bytes }
    }

    /// The all-zero address.
    pub fn zero() -> (r: Pubkey)
        ensures
            r@ == zero_pubkey(),
    {
        let r = Pubkey { bytes: [0u8;32] };
        assert(r@ =~= zero_pubkey());
        r
    }

    /// True exactly for the all-zero address.
    pub fn is_zero(&self) -> (r: bool)
        ensures
            r == (self@ == zero_pubkey()),
    {
        let zero = Pubkey::zero();
        proof {
            if self@ == zero@ {
                lemma_pubkey_bytes_determine(*self, zero);
            }
        }
        *self == zero
    }
}

/// The 32 bytes of `data` from `start` on, as an address.
pub open spec fn address_at(data: Seq<u8>, start: int) -> Seq<u8> {
    data.subrange(start, start + 32)
}

/// Reads the address that starts at `start`.
pub fn read_address(data: &[u8], start: usize) -> (r: Pubkey)
    requires
        start + 32 <= data@.len(),
    ensures
        r@ == address_at(data@, start as int),
{
    let mut bytes: [u8; 32] = [0u8;32];
    let mut i: usize = 0;
    while i < 32
        invariant
            i <= 32,
            start + 32 <= data.len(),
            forall|j: int| 0 <= j < i ==> bytes[j] == data@[start + j],
        decreases 32 - i,
    {
        bytes[i] = data[start + i];
        i = i + 1;
    }
    let r = Pubkey { bytes };
    assert(r@ =~= address_at(data@, start as int));
    r
}

/// True exactly when `key` occurs in `keys`.
pub fn contains_key(keys: &Vec<Pubkey>, key: &Pubkey) -> (r: bool)
    ensures
        r == keys@.contains(*key),
{
    let mut i: usize = 0;
    while i < keys.len()
        invariant
            i <= keys@.len(),
            forall|j: int| 0 <= j < i ==> keys@[j] != *key,
        decreases keys@.len() - i,
    {
        if keys[i] == *key {
            assert(keys@[i as int] == *key);
            return true;
        }
        i = i + 1;
    }
    false
}

/// The addresses of `keys` in the order of their first occurrence, each once.
pub open spec fn distinct_keys(keys: Seq<Pubkey>) -> Seq<Pubkey>
    decreases keys.len(),
{
    if keys.len() == 0 {
        Seq::empty()
    } else {
        let front = distinct_keys(keys.drop_last());
        if front.contains(keys.last()) {
            front
        } else {
            front.push(keys.last())
        }
    }
}

/// `distinct_keys` keeps exactly the addresses of its argument and repeats none.
pub proof fn lemma_distinct_keys(keys: Seq<Pubkey>)
    ensures
        distinct_keys(keys).no_duplicates(),
        distinct_keys(keys).to_set() == keys.to_set(),
        forall|k: Pubkey| #[trigger] distinct_keys(keys).contains(k) <==> keys.contains(k),
    decreases keys.len(),
{
    if keys.len() > 0 {
        lemma_distinct_keys(keys.drop_last());
        let front = distinct_keys(keys.drop_last());
        let d = distinct_keys(keys);
        assert(keys =~= keys.drop_last().push(keys.last()));
        assert forall|k: Pubkey| #[trigger] d.contains(k) <==> keys.contains(k) by {
            if keys.contains(k) {
                let i = choose|i: int| 0 <= i < keys.len() && keys[i] == k;
                if i < keys.len() - 1 {
                    assert(keys.drop_last()[i] == k);
                    assert(front.contains(k));
                    let j = choose|j: int| 0 <= j < front.len() && front[j] == k;
                    assert(d[j] == k);
                } else if !front.contains(k) {
                    assert(d.last() == k);
                }
            }
            if d.contains(k) {
                let i = choose|i: int| 0 <= i < d.len() && d[i] == k;
                if i < front.len() {
                    assert(front[i] == k);
                    assert(front.contains(k));
                    assert(keys.drop_last().contains(k));
                    let j = choose|j: int|
                        0 <= j < keys.drop_last().len() && keys.drop_last()[j] == k;
                    assert(keys[j] == k);
                } else {
                    assert(keys.last() == k);
                }
            }
        }
        assert(d.to_set() =~= keys.to_set());
    }
    assert(distinct_keys(keys).to_set() =~= keys.to_set());
}

/// Adds `key` to a list without repetitions, unless it is there already.
/// Returns whether it was added.
pub fn insert_key(keys: &mut Vec<Pubkey>, key: Pubkey) -> (added: bool)
    ensures
        added == !old(keys)@.contains(key),
        final(keys)@ == if old(keys)@.contains(key) {
            old(keys)@
        } else {
            old(keys)@.push(key)
        },
{
    if contains_key(keys, &key) {
        false
    } else {
        keys.push(key);
        true
    }
}

/// Appends to `keys` every address of `more` that it does not hold yet.
pub fn extend_distinct(keys: &mut Vec<Pubkey>, more: &Vec<Pubkey>)
    ensures
        distinct_keys(old(keys)@) == old(keys)@ ==> final(keys)@ == distinct_keys(
            old(keys)@ + more@,
        ),
{
    let ghost start = keys@;
    let mut i: usize = 0;
    assert(start + more@.take(0) =~= start);
    while i < more.len()
        invariant
            i <= more@.len(),
            distinct_keys(start) == start ==> keys@ == distinct_keys(start + more@.take(i as int)),
        decreases more@.len() - i,
    {
        let ghost prefix = start + more@.take(i as int);
        let ghost longer = start + more@.take(i + 1);
        assert(longer.drop_last() =~= prefix);
        assert(longer.last() == more@[i as int]);
        insert_key(keys, more[i]);
        i = i + 1;
    }
    assert(more@.take(more@.len() as int) =~= more@);
}

/// A copy of a list of addresses.
pub fn copy_keys(keys: &Vec<Pubkey>) -> (r: Vec<Pubkey>)
    ensures
        r@ == keys@,
{
    let mut r: Vec<Pubkey> = Vec::new();
    let mut i: usize = 0;
    while i < keys.len()
        invariant
            i <= keys@.len(),
            r@ == keys@.take(i as int),
        decreases keys@.len() - i,
    {
        r.push(keys[i]);
        i = i + 1;
        assert(keys@.take(i as int) =~= keys@.take(i - 1).push(keys@[i - 1]));
    }
    assert(keys@.take(keys@.len() as int) =~= keys@);
    r
}

/// Appends the addresses of `more`.
pub fn append_keys(keys: &mut Vec<Pubkey>, more: &Vec<Pubkey>)
    ensures
        final(keys)@ == old(keys)@ + more@,
{
    let ghost start = keys@;
    let mut i: usize = 0;
    assert(keys@ =~= start + more@.take(0));
    while i < more.len()
        invariant
            i <= more@.len(),
            keys@ == start + more@.take(i as int),
        decreases more@.len() - i,
    {
        keys.push(more[i]);
        i = i + 1;
        assert(keys@ =~= start + more@.take(i as int));
    }
    assert(more@.take(more@.len() as int) =~= more@);
}

} // verus!
