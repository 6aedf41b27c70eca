use vstd::prelude::*;
use vstd::string::*;

verus! {

/// Base of every favorites request.
pub const FAVORITES_ENDPOINT: &'static str = "https://e621.net/favorites.json?user_id=";

/// Separator between the user id and the page number.
pub const PAGE_PARAM: &'static str = "&page=";

/// Client identifier sent with every request.
pub const USER_AGENT: &'static str = "monosodium/1.0 (https://github.com/tiltonraccoon/monosodium)";

/// The character of a decimal digit.
pub open spec fn digit_char(d: nat) -> char {
    if d == 0 { '0' }
    else if d == 1 { '1' }
    else if d == 2 { '2' }
    else if d == 3 { '3' }
    else if d == 4 { '4' }
    else if d == 5 { '5' }
    else if d == 6 { '6' }
    else if d == 7 { '7' }
    else if d == 8 { '8' }
    else { '9' }
}

/// Decimal rendering of a natural number, without leading zeros.
pub open spec fn decimal(n: nat) -> Seq<char>
    decreases n,
{
    if n < 10 {
        seq![digit_char(n)]
    } else {
        decimal(n / 10) + seq![digit_char(n % 10)]
    }
}

/// The URL of one page of a user's favorites.
pub open spec fn favorites_url_spec(user_id: nat, page: nat) -> Seq<char> {
    FAVORITES_ENDPOINT@ + decimal(user_id) + PAGE_PARAM@ + decimal(page)
}

fn digit_str(d: u64) -> (r: &'static str)
    requires
        d < 10,
    ensures
        r@ == seq![digit_char(d as nat)],
{
    if d == 0 {
        proof { reveal_strlit("0"); }
        "0"
    } else if d == 1 {
        proof { reveal_strlit("1"); }
        "1"
    } else if d == 2 {
        proof { reveal_strlit("2"); }
        "2"
    } else if d == 3 {
        proof { reveal_strlit("3"); }
        "3"
    } else if d == 4 {
        proof { reveal_strlit("4"); }
        "4"
    } else if d == 5 {
        proof { reveal_strlit("5"); }
        "5"
    } else if d == 6 {
        proof { reveal_strlit("6"); }
        "6"
    } else if d == 7 {
        proof { reveal_strlit("7"); }
        "7"
    } else if d == 8 {
        proof { reveal_strlit("8"); }
        "8"
    } else {
        proof { reveal_strlit("9"); }
        "9"
    }
}

/// Appends the decimal rendering of `n` to `out`.
pub fn push_decimal(out: &mut String, n: u64)
    ensures
        final(out)@ == old(out)@ + decimal(n as nat),
    decreases n,
{
    if n >= 10 {
        push_decimal(out, n / 10);
        let ghost mid = out@;
        out.append(digit_str(n % 10));
        assert(old(out)@ + decimal(n as nat) =~= mid + seq![digit_char((n % 10) as nat)]);
    } else {
        out.append(digit_str(n));
    }
}

/// The request URL for page `page` of the favorites of user `user_id`.
pub fn favorites_url(user_id: u32, page: usize) -> (r: String)
    ensures
        r@ == favorites_url_spec(user_id as nat, page as nat),
{
    let mut url = String::from_str(FAVORITES_ENDPOINT);
    push_decimal(&mut url, user_id as u64);
    url.append(PAGE_PARAM);
    push_decimal(&mut url, page as u64);
    url
}

} // verus!
