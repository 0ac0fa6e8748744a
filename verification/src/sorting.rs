//! Sorted lists of addresses and texts.
use vstd::prelude::*;
use crate::pubkey::Pubkey;

verus! {

/// Whether `a` stands before `b` in the order of a dictionary.
pub open spec fn before(a: Seq<int>, b: Seq<int>) -> bool
    decreases a.len(),
{
    if b.len() == 0 {
        false
    } else if a.len() == 0 {
        true
    } else if a[0] != b[0] {
        a[0] < b[0]
    } else {
        before(a.skip(1), b.skip(1))
    }
}

/// Two lists that differ stand in one order or the other, and not in both.
pub proof fn lemma_before_total(a: Seq<int>, b: Seq<int>)
    ensures
        !before(a, a),
        !(before(a, b) && before(b, a)),
        a != b ==> before(a, b) || before(b, a),
    decreases a.len(),
{
    if a.len() > 0 {
        lemma_before_total(a.skip(1), a.skip(1));
    }
    if a.len() > 0 && b.len() > 0 && a[0] == b[0] {
        lemma_before_total(a.skip(1), b.skip(1));
        if a.skip(1) == b.skip(1) {
            assert(a =~= seq![a[0]] + a.skip(1));
            assert(b =~= seq![b[0]] + b.skip(1));
        }
    } else if a.len() == 0 && b.len() == 0 {
        assert(a =~= b);
    }
}

/// What stands before something stands before what comes after that.
pub proof fn lemma_before_transitive(a: Seq<int>, b: Seq<int>, c: Seq<int>)
    requires
        before(a, b),
        before(b, c),
    ensures
        before(a, c),
    decreases a.len(),
{
    if a.len() > 0 && b.len() > 0 && c.len() > 0 && a[0] == b[0] && b[0] == c[0] {
        lemma_before_transitive(a.skip(1), b.skip(1), c.skip(1));
    }
}

/// The order is that of the first place where two lists differ.
pub proof fn lemma_before_at(a: Seq<int>, b: Seq<int>, i: int)
    requires
        0 <= i <= a.len(),
        0 <= i <= b.len(),
        forall|j: int| 0 <= j < i ==> a[j] == b[j],
        i == a.len() || i == b.len() || a[i] != b[i],
    ensures
        before(a, b) <==> i < b.len() && (i == a.len() || a[i] < b[i]),
    decreases i,
{
    if i > 0 {
        assert forall|j: int| 0 <= j < i - 1 implies a.skip(1)[j] == b.skip(1)[j] by {
            assert(a[j + 1] == b[j + 1]);
        }
        lemma_before_at(a.skip(1), b.skip(1), i - 1);
    }
}

/// The bytes of an address as numbers.
pub open spec fn address_rank(address: Pubkey) -> Seq<int> {
    address@.map_values(|byte: u8| byte as int)
}

/// The characters of a text as numbers.
pub open spec fn text_rank(text: Seq<char>) -> Seq<int> {
    text.map_values(|c: char| c as int)
}

/// Whether the address `a` stands before `b`.
pub fn address_before(a: &Pubkey, b: &Pubkey) -> (r: bool)
    ensures
        r == before(address_rank(*a), address_rank(*b)),
{
    let mut i: usize = 0;
    while i < 32
        invariant
            i <= 32,
            forall|j: int| 0 <= j < i ==> a.bytes[j] == b.bytes[j],
        decreases 32 - i,
    {
        if a.bytes[i] != b.bytes[i] {
            proof {
                lemma_before_at(address_rank(*a), address_rank(*b), i as int);
            }
            return a.bytes[i] < b.bytes[i];
        }
        i = i + 1;
    }
    proof {
        lemma_before_at(address_rank(*a), address_rank(*b), 32);
    }
    false
}

/// Whether the text `a` stands before `b`.
pub fn text_before(a: &str, b: &str) -> (r: bool)
    ensures
        r == before(text_rank(a@), text_rank(b@)),
{
    let a_len = a.unicode_len();
    let b_len = b.unicode_len();
    let mut i: usize = 0;
    while i < a_len && i < b_len
        invariant
            i <= a_len == a@.len(),
            i <= b_len == b@.len(),
            forall|j: int| 0 <= j < i ==> a@[j] == b@[j],
        decreases a_len - i,
    {
        let x = a.get_char(i);
        let y = b.get_char(i);
        if x != y {
            proof {
                lemma_before_at(text_rank(a@), text_rank(b@), i as int);
            }
            return (x as u32) < (y as u32);
        }
        i = i + 1;
    }
    proof {
        lemma_before_at(text_rank(a@), text_rank(b@), i as int);
    }
    i < b_len
}

/// Whether addresses stand in order, none twice.
pub open spec fn addresses_sorted(addresses: Seq<Pubkey>) -> bool {
    forall|i: int, j: int|
        0 <= i < j < addresses.len() ==> before(
            address_rank(#[trigger] addresses[i]),
            address_rank(#[trigger] addresses[j]),
        )
}

/// Whether texts stand in order, none twice.
pub open spec fn texts_sorted(texts: Seq<String>) -> bool {
    forall|i: int, j: int|
        0 <= i < j < texts.len() ==> before(
            text_rank((#[trigger] texts[i])@),
            text_rank((#[trigger] texts[j])@),
        )
}

proof fn lemma_rank_determines(a: Pubkey, b: Pubkey)
    requires
        address_rank(a) == address_rank(b),
    ensures
        a == b,
{
    assert forall|i: int| 0 <= i < 32 implies a@[i] == b@[i] by {
        assert(address_rank(a)[i] == a@[i] as int);
        assert(address_rank(b)[i] == b@[i] as int);
    }
    assert(a@ =~= b@);
    crate::pubkey::lemma_pubkey_bytes_determine(a, b);
}

fn insert_address(sorted: &mut Vec<Pubkey>, address: Pubkey)
    requires
        addresses_sorted(old(sorted)@),
    ensures
        addresses_sorted(final(sorted)@),
        forall|other: Pubkey| #[trigger]
            final(sorted)@.contains(other) <==> old(sorted)@.contains(other) || other == address,
{
    let ghost start = sorted@;
    let mut i: usize = 0;
    while i < sorted.len() && address_before(&sorted[i], &address)
        invariant
            i <= sorted.len(),
            sorted@ == start,
            addresses_sorted(start),
            forall|j: int|
                0 <= j < i ==> before(address_rank(#[trigger] start[j]), address_rank(address)),
        decreases sorted.len() - i,
    {
        i = i + 1;
    }
    if i < sorted.len() && sorted[i] == address {
        assert(start[i as int] == address);
        return;
    }
    sorted.insert(i, address);
    proof {
        let done = sorted@;
        let at = i as int;
        if at < start.len() {
            lemma_before_total(address_rank(start[at]), address_rank(address));
            if address_rank(start[at]) == address_rank(address) {
                lemma_rank_determines(start[at], address);
            }
            assert(before(address_rank(address), address_rank(start[at])));
        }
        assert forall|j: int, k: int| 0 <= j < k < done.len() implies before(
            address_rank(#[trigger] done[j]),
            address_rank(#[trigger] done[k]),
        ) by {
            let a = if j < at {
                start[j]
            } else if j == at {
                address
            } else {
                start[j - 1]
            };
            assert(done[j] == a);
            if k == at {
                assert(done[k] == address);
            } else if k < at {
                assert(done[k] == start[k]);
            } else {
                assert(done[k] == start[k - 1]);
                if j == at && k - 1 > at {
                    lemma_before_transitive(
                        address_rank(address),
                        address_rank(start[at]),
                        address_rank(start[k - 1]),
                    );
                }
            }
        }
        assert forall|other: Pubkey| #[trigger] done.contains(other) <==> start.contains(other)
            || other == address by {
            if start.contains(other) {
                let j = choose|j: int| 0 <= j < start.len() && start[j] == other;
                if j < at {
                    assert(done[j] == other);
                } else {
                    assert(done[j + 1] == other);
                }
            }
            if other == address {
                assert(done[at] == other);
            }
            if done.contains(other) {
                let j = choose|j: int| 0 <= j < done.len() && done[j] == other;
                if j < at {
                    assert(start[j] == other);
                } else if j > at {
                    assert(start[j - 1] == other);
                }
            }
        }
    }
}

/// The addresses in order, none twice.
pub fn sort_addresses(addresses: &Vec<Pubkey>) -> (r: Vec<Pubkey>)
    ensures
        addresses_sorted(r@),
        forall|address: Pubkey| #[trigger]
            r@.contains(address) <==> addresses@.contains(address),
{
    let mut sorted: Vec<Pubkey> = Vec::new();
    let mut i: usize = 0;
    while i < addresses.len()
        invariant
            i <= addresses.len(),
            addresses_sorted(sorted@),
            forall|address: Pubkey| #[trigger]
                sorted@.contains(address) <==> addresses@.take(i as int).contains(address),
        decreases addresses.len() - i,
    {
        let ghost short = addresses@.take(i as int);
        let ghost long = addresses@.take(i + 1);
        insert_address(&mut sorted, addresses[i]);
        proof {
            assert(long =~= short.push(addresses@[i as int]));
            assert forall|address: Pubkey| #[trigger] sorted@.contains(address) <==> long.contains(
                address,
            ) by {
                if short.contains(address) {
                    let j = choose|j: int| 0 <= j < short.len() && short[j] == address;
                    assert(long[j] == address);
                }
                if address == addresses@[i as int] {
                    assert(long[i as int] == address);
                }
                if long.contains(address) {
                    let j = choose|j: int| 0 <= j < long.len() && long[j] == address;
                    if j < i {
                        assert(short[j] == address);
                    }
                }
            }
        }
        i = i + 1;
    }
    assert(addresses@.take(addresses@.len() as int) =~= addresses@);
    sorted
}

/// Whether a text is among `texts`.
pub open spec fn has_text(texts: Seq<String>, text: Seq<char>) -> bool {
    exists|i: int| 0 <= i < texts.len() && (#[trigger] texts[i])@ == text
}

proof fn lemma_text_rank_determines(a: Seq<char>, b: Seq<char>)
    requires
        text_rank(a) == text_rank(b),
    ensures
        a == b,
{
    assert(a.len() == text_rank(a).len());
    assert(b.len() == text_rank(b).len());
    assert forall|i: int| 0 <= i < a.len() implies a[i] == b[i] by {
        assert(text_rank(a)[i] == a[i] as int);
        assert(text_rank(b)[i] == b[i] as int);
    }
    assert(a =~= b);
}

/// Adds a text to a list in order, unless it is there already.
pub fn insert_text(sorted: &mut Vec<String>, text: String)
    requires
        texts_sorted(old(sorted)@),
    ensures
        texts_sorted(final(sorted)@),
        forall|other: Seq<char>| #[trigger]
            has_text(final(sorted)@, other) <==> has_text(old(sorted)@, other) || other == text@,
{
    let ghost start = sorted@;
    let ghost rank = text_rank(text@);
    let mut i: usize = 0;
    while i < sorted.len() && text_before(sorted[i].as_str(), text.as_str())
        invariant
            i <= sorted.len(),
            sorted@ == start,
            texts_sorted(start),
            rank == text_rank(text@),
            forall|j: int| 0 <= j < i ==> before(text_rank((#[trigger] start[j])@), rank),
        decreases sorted.len() - i,
    {
        i = i + 1;
    }
    if i < sorted.len() && !text_before(text.as_str(), sorted[i].as_str()) {
        proof {
            lemma_before_total(rank, text_rank(start[i as int]@));
            lemma_text_rank_determines(text@, start[i as int]@);
            assert forall|other: Seq<char>| #[trigger] has_text(start, other) <==> has_text(
                start,
                other,
            ) || other == text@ by {
                assert(start[i as int]@ == text@);
            }
        }
        return;
    }
    let ghost added = text@;
    sorted.insert(i, text);
    proof {
        let done = sorted@;
        let at = i as int;
        assert forall|j: int, k: int| 0 <= j < k < done.len() implies before(
            text_rank((#[trigger] done[j])@),
            text_rank((#[trigger] done[k])@),
        ) by {
            if j < at {
                assert(done[j] == start[j]);
            } else if j > at {
                assert(done[j] == start[j - 1]);
            }
            if k < at {
                assert(done[k] == start[k]);
            } else if k > at {
                assert(done[k] == start[k - 1]);
                if j == at && k - 1 > at {
                    lemma_before_transitive(
                        rank,
                        text_rank(start[at]@),
                        text_rank(start[k - 1]@),
                    );
                }
            }
        }
        assert forall|other: Seq<char>| #[trigger] has_text(done, other) <==> has_text(start, other)
            || other == added by {
            if has_text(start, other) {
                let j = choose|j: int| 0 <= j < start.len() && (#[trigger] start[j])@ == other;
                if j < at {
                    assert(done[j]@ == other);
                } else {
                    assert(done[j + 1]@ == other);
                }
            }
            if other == added {
                assert(done[at]@ == other);
            }
            if has_text(done, other) {
                let j = choose|j: int| 0 <= j < done.len() && (#[trigger] done[j])@ == other;
                if j < at {
                    assert(start[j]@ == other);
                } else if j > at {
                    assert(start[j - 1]@ == other);
                }
            }
        }
    }
}

} // verus!
