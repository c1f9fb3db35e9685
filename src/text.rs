use crate::asset::{Asset, AssetInfo, AssetInfoView, AssetView};
use crate::state::{PairType, PairTypeView};
use vstd::prelude::*;

verus! {

pub open spec fn digit_char(d: nat) -> char {
    if d == 0 {
        '0'
    } else if d == 1 {
        '1'
    } else if d == 2 {
        '2'
    } else if d == 3 {
        '3'
    } else if d == 4 {
        '4'
    } else if d == 5 {
        '5'
    } else if d == 6 {
        '6'
    } else if d == 7 {
        '7'
    } else if d == 8 {
        '8'
    } else {
        '9'
    }
}

/// The decimal digits of `n`, most significant first, without leading zeros.
pub open spec fn decimal_digits(n: nat) -> Seq<char>
    decreases n,
{
    if n < 10 {
        seq![digit_char(n)]
    } else {
        decimal_digits(n / 10).push(digit_char(n % 10))
    }
}

fn digit_str(d: u128) -> (r: &'static str)
    requires
        d < 10,
    ensures
        r@ == seq![digit_char(d as nat)],
{
    proof {
        reveal_strlit("0");
        reveal_strlit("1");
        reveal_strlit("2");
        reveal_strlit("3");
        reveal_strlit("4");
        reveal_strlit("5");
        reveal_strlit("6");
        reveal_strlit("7");
        reveal_strlit("8");
        reveal_strlit("9");
    }
    if d == 0 {
        "0"
    } else if d == 1 {
        "1"
    } else if d == 2 {
        "2"
    } else if d == 3 {
        "3"
    } else if d == 4 {
        "4"
    } else if d == 5 {
        "5"
    } else if d == 6 {
        "6"
    } else if d == 7 {
        "7"
    } else if d == 8 {
        "8"
    } else {
        "9"
    }
}

/// `n` written in decimal.
pub fn decimal_string(n: u128) -> (r: String)
    ensures
        r@ == decimal_digits(n as nat),
    decreases n,
{
    if n < 10 {
        String::from_str(digit_str(n))
    } else {
        let mut r = decimal_string(n / 10);
        r.append(digit_str(n % 10));
        proof {
            assert(r@ =~= decimal_digits(n as nat));
        }
        r
    }
}

/// An asset's identity as text: the token address or the native denom.
pub open spec fn info_text(info: AssetInfoView) -> Seq<char> {
    info.id()
}

/// An asset as text: its amount followed by its identity.
pub open spec fn asset_text(a: AssetView) -> Seq<char> {
    decimal_digits(a.amount as nat) + info_text(a.info)
}

pub open spec fn pair_type_text(t: PairTypeView) -> Seq<char> {
    match t {
        PairTypeView::Xyk => seq!['x', 'y', 'k'],
        PairTypeView::Stable => seq!['s', 't', 'a', 'b', 'l', 'e'],
        PairTypeView::Custom(s) => seq!['c', 'u', 's', 't', 'o', 'm', '-'] + s,
    }
}

/// `a, b`.
pub open spec fn comma_pair(a: Seq<char>, b: Seq<char>) -> Seq<char> {
    a + seq![',', ' '] + b
}

pub fn info_string(info: &AssetInfo) -> (r: String)
    ensures
        r@ == info_text(info@),
{
    info.id().clone()
}

pub fn asset_string(a: &Asset) -> (r: String)
    ensures
        r@ == asset_text(a@),
{
    let mut r = decimal_string(a.amount);
    r.append(a.info.id().as_str());
    r
}

pub fn pair_type_string(t: &PairType) -> (r: String)
    ensures
        r@ == pair_type_text(t@),
{
    proof {
        reveal_strlit("xyk");
        reveal_strlit("stable");
        reveal_strlit("custom-");
    }
    match t {
        PairType::Xyk {} => String::from_str("xyk"),
        PairType::Stable {} => String::from_str("stable"),
        PairType::Custom(s) => {
            let mut r = String::from_str("custom-");
            r.append(s.as_str());
            proof {
                assert(r@ =~= pair_type_text(t@));
            }
            r
        },
    }
}

pub fn comma_pair_string(a: String, b: &String) -> (r: String)
    ensures
        r@ == comma_pair(a@, b@),
{
    let mut r = a;
    r.append(", ");
    r.append(b.as_str());
    proof {
        reveal_strlit(", ");
        assert(r@ =~= comma_pair(a@, b@));
    }
    r
}

/// How many characters of each asset's symbol the LP token's name keeps.
pub const SYMBOL_CHARS: usize = 4;

/// `s` in upper case, as Rust's Unicode case mapping gives it.
pub uninterp spec fn uppercase_of(s: Seq<char>) -> Seq<char>;

/// Relies on str::to_uppercase: the upper-case form of the text, which
/// depends on its characters alone.
#[verifier::external_body]
fn to_uppercase(s: &String) -> (r: String)
    ensures
        r@ == uppercase_of(s@),
{
    s.to_uppercase()
}

pub open spec fn short_symbol(s: Seq<char>) -> Seq<char> {
    if s.len() <= SYMBOL_CHARS {
        s
    } else {
        s.take(SYMBOL_CHARS as int)
    }
}

/// The short symbols, joined by `-`.
pub open spec fn joined_symbols(v: Seq<Seq<char>>) -> Seq<char>
    decreases v.len(),
{
    if v.len() == 0 {
        Seq::empty()
    } else if v.len() == 1 {
        short_symbol(v[0])
    } else {
        joined_symbols(v.drop_last()) + seq!['-'] + short_symbol(v.last())
    }
}

/// The LP token's name before upper-casing: `<SYM1>-<SYM2>-LP`.
pub open spec fn lp_name_text(v: Seq<Seq<char>>) -> Seq<char> {
    joined_symbols(v) + seq!['-', 'L', 'P']
}

pub open spec fn strings_view(v: Seq<String>) -> Seq<Seq<char>> {
    v.map_values(|x: String| x@)
}

/// The LP token's name before upper-casing: the first four characters of
/// each symbol, joined by `-`, then `-LP`.
pub fn lp_name_parts(symbols: &Vec<String>) -> (r: String)
    ensures
        r@ == lp_name_text(strings_view(symbols@)),
{
    let ghost sv = strings_view(symbols@);
    let mut name = String::new();
    let mut i: usize = 0;
    while i < symbols.len()
        invariant
            i <= symbols.len(),
            sv == strings_view(symbols@),
            name@ == joined_symbols(sv.take(i as int)),
        decreases symbols.len() - i,
    {
        let sym = &symbols[i];
        let n = sym.as_str().unicode_len();
        let k = if n <= SYMBOL_CHARS {
            n
        } else {
            SYMBOL_CHARS
        };
        let short = sym.as_str().substring_char(0, k);
        proof {
            assert(short@ =~= short_symbol(sv[i as int]));
            assert(sv.take(i + 1).drop_last() =~= sv.take(i as int));
        }
        if i > 0 {
            name.append("-");
            proof {
                reveal_strlit("-");
            }
        }
        name.append(short);
        proof {
            if i == 0 {
                assert(name@ =~= joined_symbols(sv.take(1)));
            } else {
                assert(name@ =~= joined_symbols(sv.take(i + 1)));
            }
        }
        i = i + 1;
    }
    name.append("-LP");
    proof {
        reveal_strlit("-LP");
        assert(sv.take(symbols.len() as int) =~= sv);
        assert(name@ =~= lp_name_text(sv));
    }
    name
}

/// The name of the LP token of a pair whose assets have `symbols` (a
/// native asset's symbol is its denom): [`lp_name_parts`] in upper case.
pub fn lp_token_name(symbols: &Vec<String>) -> (r: String)
    ensures
        r@ == uppercase_of(lp_name_text(strings_view(symbols@))),
{
    to_uppercase(&lp_name_parts(symbols))
}

} // verus!
