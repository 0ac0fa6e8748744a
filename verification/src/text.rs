//! Texts: base58, decimal numbers, and lists of messages.
use vstd::prelude::*;
use crate::pubkey::Pubkey;

verus! {

/// What `bs58::decode(..).into_vec()` makes of a text: nothing if it is no base58 text.
pub uninterp spec fn base58_bytes(text: Seq<char>) -> Option<Seq<u8>>;

/// The address that `solana_pubkey::Pubkey::from_str` reads from a text, if it reads one.
pub uninterp spec fn address_in_text(text: Seq<char>) -> Option<Seq<u8>>;

/// The text that `solana_pubkey::Pubkey` is displayed as.
pub uninterp spec fn address_text(address: Seq<u8>) -> Seq<char>;

/// The view of an optional byte string.
pub open spec fn bytes_view(bytes: Option<Vec<u8>>) -> Option<Seq<u8>> {
    match bytes {
        Some(bytes) => Some(bytes@),
        None => None,
    }
}

/// The view of an optional address.
pub open spec fn address_view(address: Option<Pubkey>) -> Option<Seq<u8>> {
    match address {
        Some(address) => Some(address@),
        None => None,
    }
}

/// `bs58::decode` and `into_vec`: the bytes that a base58 text stands for.
#[verifier::external_body]
pub(crate) fn decode_base58(text: &String) -> (r: Option<Vec<u8>>)
    ensures
        bytes_view(r) == base58_bytes(text@),
{
    bs58::decode(text).into_vec().ok()
}

/// `solana_pubkey::Pubkey::from_str`: the address that a text stands for.
#[verifier::external_body]
pub(crate) fn parse_address(text: &String) -> (r: Option<Pubkey>)
    ensures
        address_view(r) == address_in_text(text@),
{
    text.parse::<solana_pubkey::Pubkey>().ok().map(|key| Pubkey { bytes: key.to_bytes() })
}

/// `solana_pubkey::Pubkey` as a text.
#[verifier::external_body]
pub(crate) fn address_to_text(address: &Pubkey) -> (r: String)
    ensures
        r@ == address_text(address@),
{
    solana_pubkey::Pubkey::new_from_array(address.bytes).to_string()
}

/// A decimal digit.
pub open spec fn digit_char(digit: nat) -> char {
    (digit + 48) as char
}

/// A number in decimal.
pub open spec fn decimal_text(number: nat) -> Seq<char>
    decreases number,
{
    if number < 10 {
        seq![digit_char(number)]
    } else {
        decimal_text(number / 10).push(digit_char(number % 10))
    }
}

fn digit(number: u64) -> (r: &'static str)
    requires
        number < 10,
    ensures
        r@ == seq![digit_char(number as nat)],
{
    proof {
        reveal_strlit("0");
        reveal_strlit("1");
        reveal_strlit("2");
        reveal_strlit("3");
        reveal_strlit("4");
        reveal_strlit("5");
        reveal_strlit("6");
        reveal_strlit("7");
        reveal_strlit("8");
        reveal_strlit("9");
    }
    let r = if number == 0 {
        "0"
    } else if number == 1 {
        "1"
    } else if number == 2 {
        "2"
    } else if number == 3 {
        "3"
    } else if number == 4 {
        "4"
    } else if number == 5 {
        "5"
    } else if number == 6 {
        "6"
    } else if number == 7 {
        "7"
    } else if number == 8 {
        "8"
    } else {
        "9"
    };
    assert(r@ =~= seq![digit_char(number as nat)]);
    r
}

/// Writes a number in decimal.
pub fn decimal(number: u64) -> (r: String)
    ensures
        r@ == decimal_text(number as nat),
    decreases number,
{
    if number < 10 {
        String::from_str(digit(number))
    } else {
        let mut r = decimal(number / 10);
        r.append(digit(number % 10));
        assert(r@ =~= decimal_text(number as nat));
        r
    }
}

/// The texts one after the other, with `separator` between two of them.
pub open spec fn joined(texts: Seq<Seq<char>>, separator: Seq<char>) -> Seq<char>
    decreases texts.len(),
{
    if texts.len() == 0 {
        Seq::empty()
    } else if texts.len() == 1 {
        texts[0]
    } else {
        joined(texts.drop_last(), separator) + separator + texts.last()
    }
}

/// What the texts of a list say.
pub open spec fn text_views(texts: Seq<String>) -> Seq<Seq<char>> {
    texts.map_values(|text: String| text@)
}

/// Joins texts with commas.
pub fn join_messages(texts: &Vec<String>) -> (r: String)
    ensures
        r@ == joined(text_views(texts@), ", "@),
{
    let mut r = String::new();
    let ghost views = text_views(texts@);
    let mut i: usize = 0;
    while i < texts.len()
        invariant
            i <= texts.len(),
            views == text_views(texts@),
            r@ == joined(views.take(i as int), ", "@),
        decreases texts.len() - i,
    {
        if i > 0 {
            r.append(", ");
        }
        r.append(texts[i].as_str());
        i = i + 1;
        proof {
            let longer = views.take(i as int);
            assert(longer.drop_last() =~= views.take(i - 1));
            assert(longer.last() == texts@[i - 1]@);
            if i == 1 {
                assert(r@ =~= texts@[0]@);
            } else {
                assert(r@ =~= joined(longer, ", "@));
            }
        }
    }
    assert(views.take(views.len() as int) =~= views);
    r
}

/// The first text, then the second.
pub fn concat2(a: &str, b: &str) -> (r: String)
    ensures
        r@ == a@ + b@,
{
    let mut r = String::from_str(a);
    r.append(b);
    r
}

/// Three texts, one after the other.
pub fn concat3(a: &str, b: &str, c: &str) -> (r: String)
    ensures
        r@ == a@ + b@ + c@,
{
    let mut r = String::from_str(a);
    r.append(b);
    r.append(c);
    r
}

/// Four texts, one after the other.
pub fn concat4(a: &str, b: &str, c: &str, d: &str) -> (r: String)
    ensures
        r@ == a@ + b@ + c@ + d@,
{
    let mut r = concat3(a, b, c);
    r.append(d);
    r
}

/// Five texts, one after the other.
pub fn concat5(a: &str, b: &str, c: &str, d: &str, e: &str) -> (r: String)
    ensures
        r@ == a@ + b@ + c@ + d@ + e@,
{
    let mut r = concat4(a, b, c, d);
    r.append(e);
    r
}

/// The texts of addresses.
pub open spec fn address_texts(addresses: Seq<Pubkey>) -> Seq<Seq<char>> {
    addresses.map_values(|address: Pubkey| address_text(address@))
}

/// The texts of addresses.
pub fn addresses_to_texts(addresses: &Vec<Pubkey>) -> (r: Vec<String>)
    ensures
        text_views(r@) == address_texts(addresses@),
{
    let mut r: Vec<String> = Vec::new();
    let mut i: usize = 0;
    while i < addresses.len()
        invariant
            i <= addresses.len(),
            r@.len() == i,
            forall|j: int| 0 <= j < i ==> (#[trigger] r@[j])@ == address_text(addresses@[j]@),
        decreases addresses.len() - i,
    {
        r.push(address_to_text(&addresses[i]));
        i = i + 1;
    }
    assert(text_views(r@) =~= address_texts(addresses@));
    r
}

} // verus!
