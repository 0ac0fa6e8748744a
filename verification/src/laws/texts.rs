//! What holds of texts, and of lists in order.
use vstd::prelude::*;
use crate::chainlink::fetch_cloner::cancel::{distinct, keys_not_in, pick_not_in};
use crate::lists::lemma_picked_contains;
use crate::pubkey::{insert_key, lemma_distinct_keys, read_address, Pubkey};
use crate::sorting::{
    address_before, address_rank, addresses_sorted, has_text, insert_text, lemma_before_at,
    lemma_before_total, sort_addresses, text_before, text_rank, texts_sorted,
};
use crate::text::{concat2, concat3, decimal, decimal_text, digit_char, join_messages, text_views};

verus! {

/// The number that decimal digits stand for.
pub open spec fn decimal_value(text: Seq<char>) -> int
    decreases text.len(),
{
    if text.len() == 0 {
        0
    } else {
        10 * decimal_value(text.drop_last()) + (text.last() as int - '0' as int)
    }
}

proof fn lemma_decimal(number: nat)
    ensures
        decimal_value(decimal_text(number)) == number,
        decimal_text(number).len() > 0,
        number > 0 ==> decimal_text(number)[0] != '0',
        forall|i: int|
            0 <= i < decimal_text(number).len() ==> '0' <= #[trigger] decimal_text(number)[i]
                <= '9',
    decreases number,
{
    let text = decimal_text(number);
    if number < 10 {
        assert(text.drop_last() =~= Seq::empty());
        assert(decimal_value(Seq::empty()) == 0);
        assert(text.last() == digit_char(number));
    } else {
        lemma_decimal(number / 10);
        assert(text.drop_last() =~= decimal_text(number / 10));
        assert(text.last() == digit_char(number % 10));
    }
}

/// A number is written in decimal digits that stand for it, without leading zeros.
pub proof fn law_numbers_are_written_in_decimal(number: u64, r: String)
    requires
        call_ensures(decimal, (number,), r),
    ensures
        decimal_value(r@) == number,
        forall|i: int| 0 <= i < r@.len() ==> '0' <= #[trigger] r@[i] <= '9',
        number > 0 ==> r@[0] != '0',
        r@.len() > 0,
{
    lemma_decimal(number as nat);
}

/// Messages are joined in their order, with a comma and a space between two of them.
pub proof fn law_messages_are_joined(
    front: Vec<String>,
    last: String,
    all: Vec<String>,
    a: String,
    b: String,
)
    requires
        all@ == front@.push(last),
        call_ensures(join_messages, (&front,), a),
        call_ensures(join_messages, (&all,), b),
    ensures
        front@.len() == 0 ==> b@ == last@,
        front@.len() > 0 ==> b@ == a@ + ", "@ + last@,
{
    let texts = text_views(all@);
    assert(texts.drop_last() =~= text_views(front@));
    assert(texts.last() == last@);
}

/// Two texts are put one after the other.
pub proof fn law_texts_are_concatenated(a: &str, b: &str, c: &str, two: String, three: String)
    requires
        call_ensures(concat2, (a, b), two),
        call_ensures(concat3, (a, b, c), three),
    ensures
        two@ == a@ + b@,
        three@ == two@ + c@,
{
}

/// An address stands before another exactly if it is smaller at the first byte where they
/// differ.
pub proof fn law_addresses_are_ordered_by_their_bytes(a: Pubkey, b: Pubkey, i: int, r: bool)
    requires
        call_ensures(address_before, (&a, &b), r),
        0 <= i < 32,
        a@[i] != b@[i],
        forall|j: int| 0 <= j < i ==> a@[j] == b@[j],
    ensures
        r <==> a@[i] < b@[i],
{
    let x = address_rank(a);
    let y = address_rank(b);
    assert(x[i] == a@[i] as int && y[i] == b@[i] as int);
    assert forall|j: int| 0 <= j < i implies x[j] == y[j] by {
        assert(a@[j] == b@[j]);
    }
    lemma_before_at(x, y, i);
}

/// No address stands before itself.
pub proof fn law_no_address_stands_before_itself(a: Pubkey, r: bool)
    requires
        call_ensures(address_before, (&a, &a), r),
    ensures
        !r,
{
    lemma_before_total(address_rank(a), address_rank(a));
}

/// Sorted addresses are those that were given, no more and no fewer.
pub proof fn law_sorted_addresses_are_all_there(
    addresses: Vec<Pubkey>,
    key: Pubkey,
    r: Vec<Pubkey>,
)
    requires
        call_ensures(sort_addresses, (&addresses,), r),
    ensures
        r@.contains(key) <==> addresses@.contains(key),
{
}

/// Sorted addresses stand in order, none twice.
pub proof fn law_sorted_addresses_are_in_order(
    addresses: Vec<Pubkey>,
    i: int,
    j: int,
    r: Vec<Pubkey>,
    ordered: bool,
)
    requires
        call_ensures(sort_addresses, (&addresses,), r),
        0 <= i < j < r@.len(),
        call_ensures(address_before, (&r@[i], &r@[j]), ordered),
    ensures
        ordered,
        r@[i] != r@[j],
{
    assert(addresses_sorted(r@));
    lemma_before_total(address_rank(r@[i]), address_rank(r@[j]));
}

/// Sorting does not depend on the order in which addresses are given: the first place has the
/// least of them.
pub proof fn law_sorted_addresses_start_with_the_least(
    addresses: Vec<Pubkey>,
    key: Pubkey,
    r: Vec<Pubkey>,
    ordered: bool,
)
    requires
        call_ensures(sort_addresses, (&addresses,), r),
        addresses@.contains(key),
        call_ensures(address_before, (&key, &r@[0]), ordered),
    ensures
        !ordered,
{
    assert(r@.contains(key));
    let n = choose|n: int| 0 <= n < r@.len() && r@[n] == key;
    assert(addresses_sorted(r@));
    lemma_before_total(address_rank(r@[0]), address_rank(r@[n]));
}

/// A text stands before another exactly if its character is smaller at the first place where
/// they differ.
pub proof fn law_texts_are_ordered_by_their_characters(a: &str, b: &str, i: int, r: bool)
    requires
        call_ensures(text_before, (a, b), r),
        0 <= i < a@.len(),
        0 <= i < b@.len(),
        a@[i] != b@[i],
        forall|j: int| 0 <= j < i ==> a@[j] == b@[j],
    ensures
        r <==> (a@[i] as int) < b@[i] as int,
{
    let x = text_rank(a@);
    let y = text_rank(b@);
    assert(x[i] == a@[i] as int && y[i] == b@[i] as int);
    assert forall|j: int| 0 <= j < i implies x[j] == y[j] by {
        assert(a@[j] == b@[j]);
    }
    lemma_before_at(x, y, i);
}

/// A text is added to a list in order unless it is there, and no text leaves the list.
pub proof fn law_texts_are_inserted(
    sorted: &mut Vec<String>,
    text: String,
    i: int,
    j: int,
)
    requires
        texts_sorted(old(sorted)@),
        call_ensures(insert_text, (sorted, text), ()),
    ensures
        exists|n: int| 0 <= n < final(sorted)@.len() && (#[trigger] final(sorted)@[n])@ == text@,
        0 <= i < old(sorted)@.len() ==> exists|n: int|
            0 <= n < final(sorted)@.len() && (#[trigger] final(sorted)@[n])@ == old(sorted)@[i]@,
        0 <= i < j < final(sorted)@.len() ==> final(sorted)@[i]@ != final(sorted)@[j]@,
{
    assert(has_text(final(sorted)@, text@));
    if 0 <= i < old(sorted)@.len() {
        assert(has_text(old(sorted)@, old(sorted)@[i]@));
        assert(has_text(final(sorted)@, old(sorted)@[i]@));
    }
    if 0 <= i < j < final(sorted)@.len() {
        lemma_before_total(text_rank(final(sorted)@[i]@), text_rank(final(sorted)@[j]@));
    }
}

/// An address is added to a list unless it is there; nothing leaves the list.
pub proof fn law_keys_are_inserted_once(
    keys: &mut Vec<Pubkey>,
    key: Pubkey,
    other: Pubkey,
    added: bool,
)
    requires
        call_ensures(insert_key, (keys, key), added),
    ensures
        added <==> !old(keys)@.contains(key),
        final(keys)@.contains(key),
        other != key ==> (final(keys)@.contains(other) <==> old(keys)@.contains(other)),
        old(keys)@.no_duplicates() ==> final(keys)@.no_duplicates(),
{
    let a = old(keys)@;
    let b = final(keys)@;
    if added {
        assert(b[b.len() - 1] == key);
        if a.contains(other) {
            let i = choose|i: int| 0 <= i < a.len() && a[i] == other;
            assert(b[i] == other);
        }
        if b.contains(other) && other != key {
            let i = choose|i: int| 0 <= i < b.len() && b[i] == other;
            assert(a[i] == other);
        }
    }
}

/// An address is read from the 32 bytes at its place.
pub proof fn law_addresses_are_read_in_place(data: &[u8], start: usize, k: int, r: Pubkey)
    requires
        start + 32 <= data@.len(),
        call_ensures(read_address, (data, start), r),
        0 <= k < 32,
    ensures
        r@[k] == data@[start + k],
{
}

/// Each address is kept once, where it stood first.
pub proof fn law_distinct_addresses_are_all_there(keys: Vec<Pubkey>, key: Pubkey, r: Vec<Pubkey>)
    requires
        call_ensures(distinct, (&keys,), r),
    ensures
        r@.contains(key) <==> keys@.contains(key),
        r@.no_duplicates(),
        keys@.len() > 0 ==> r@.len() > 0,
{
    lemma_distinct_keys(keys@);
    if keys@.len() > 0 {
        assert(keys@.contains(keys@[0]));
        assert(r@.contains(keys@[0]));
    }
}

/// What is left of addresses are those that are not among the others.
pub proof fn law_other_addresses_are_left(
    keys: Vec<Pubkey>,
    existing: Vec<Pubkey>,
    key: Pubkey,
    r: Vec<Pubkey>,
)
    requires
        call_ensures(keys_not_in, (&keys, &existing), r),
    ensures
        r@.contains(key) <==> keys@.contains(key) && !existing@.contains(key),
{
    lemma_picked_contains(keys@, pick_not_in(existing@), key);
    if keys@.contains(key) && !existing@.contains(key) {
        let i = choose|i: int| 0 <= i < keys@.len() && keys@[i] == key;
        assert(pick_not_in(existing@)(keys@[i]) == Some(key));
    }
}

} // verus!
