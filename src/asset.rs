use vstd::prelude::*;

verus! {

/// Identity of an asset as callers of the legacy interface see it.
#[derive(Clone, Debug, PartialEq, Eq)]
pub enum AssetInfo {
    /// A token contract, named by its address.
    Token { contract_addr: String },
    /// A native coin, named by its denom.
    NativeToken { denom: String },
}

/// The mathematical content of an [`AssetInfo`].
pub enum AssetInfoView {
    Token(Seq<char>),
    Native(Seq<char>),
}

impl View for AssetInfo {
    type V = AssetInfoView;

    open spec fn view(&self) -> AssetInfoView {
        match self {
            AssetInfo::Token { contract_addr } => AssetInfoView::Token(contract_addr@),
            AssetInfo::NativeToken { denom } => AssetInfoView::Native(denom@),
        }
    }
}

impl AssetInfoView {
    pub open spec fn is_native(self) -> bool {
        self is Native
    }

    /// The token address or the native denom.
    pub open spec fn id(self) -> Seq<char> {
        match self {
            AssetInfoView::Token(a) => a,
            AssetInfoView::Native(d) => d,
        }
    }
}

/// An asset together with an amount.
#[derive(Clone, Debug, PartialEq, Eq)]
pub struct Asset {
    pub info: AssetInfo,
    pub amount: u128,
}

pub struct AssetView {
    pub info: AssetInfoView,
    pub amount: u128,
}

impl View for Asset {
    type V = AssetView;

    open spec fn view(&self) -> AssetView {
        AssetView { info: self.info@, amount: self.amount }
    }
}

/// A native coin: a denom and an amount.
#[derive(Clone, Debug, PartialEq, Eq)]
pub struct Coin {
    pub denom: String,
    pub amount: u128,
}

pub struct CoinView {
    pub denom: Seq<char>,
    pub amount: u128,
}

impl View for Coin {
    type V = CoinView;

    open spec fn view(&self) -> CoinView {
        CoinView { denom: self.denom@, amount: self.amount }
    }
}

pub open spec fn coins_view(v: Seq<Coin>) -> Seq<CoinView> {
    v.map_values(|c: Coin| c@)
}

pub open spec fn assets_view(v: Seq<Asset>) -> Seq<AssetView> {
    v.map_values(|a: Asset| a@)
}

pub open spec fn infos_view(v: Seq<AssetInfo>) -> Seq<AssetInfoView> {
    v.map_values(|a: AssetInfo| a@)
}

/// The namespace under which the denom adapter issues wrapped tokens.
pub open spec fn namespace() -> Seq<char> {
    seq!['f', 'a', 'c', 't', 'o', 'r', 'y']
}

/// `factory/<adapter>/`: the start of every denom that the adapter issues.
pub open spec fn wrapped_prefix(adapter: Seq<char>) -> Seq<char> {
    namespace() + seq!['/'] + adapter + seq!['/']
}

/// The denom under which the adapter issues the token at `token`.
pub open spec fn wrapped_denom(adapter: Seq<char>, token: Seq<char>) -> Seq<char> {
    wrapped_prefix(adapter) + token
}

/// The denom that the backend pool holds for an asset.
pub open spec fn backend_denom(adapter: Seq<char>, info: AssetInfoView) -> Seq<char> {
    match info {
        AssetInfoView::Native(d) => d,
        AssetInfoView::Token(a) => wrapped_denom(adapter, a),
    }
}

pub open spec fn seq_starts_with(s: Seq<char>, p: Seq<char>) -> bool {
    p.len() <= s.len() && s.subrange(0, p.len() as int) == p
}

/// Index just past the last `/` of `s`, or 0 when there is none.
pub open spec fn last_sep_end(s: Seq<char>) -> int
    decreases s.len(),
{
    if s.len() == 0 {
        0
    } else if s.last() == '/' {
        s.len() as int
    } else {
        last_sep_end(s.drop_last())
    }
}

/// The part of `s` after its last `/` (all of `s` when it has none).
pub open spec fn last_segment(s: Seq<char>) -> Seq<char> {
    s.subrange(last_sep_end(s), s.len() as int)
}

/// The legacy asset that a backend coin stands for.
pub open spec fn asset_of_backend_coin(adapter: Seq<char>, c: CoinView) -> AssetView {
    if seq_starts_with(c.denom, wrapped_prefix(adapter)) {
        AssetView { info: AssetInfoView::Token(last_segment(c.denom)), amount: c.amount }
    } else {
        AssetView { info: AssetInfoView::Native(c.denom), amount: c.amount }
    }
}

pub proof fn lemma_last_sep_end_bounds(s: Seq<char>)
    ensures
        0 <= last_sep_end(s) <= s.len(),
    decreases s.len(),
{
    if s.len() > 0 && s.last() != '/' {
        lemma_last_sep_end_bounds(s.drop_last());
    }
}

proof fn lemma_last_sep_end_after_prefix(p: Seq<char>, t: Seq<char>)
    requires
        p.len() > 0,
        p.last() == '/',
        !t.contains('/'),
    ensures
        last_sep_end(p + t) == p.len(),
    decreases t.len(),
{
    if t.len() == 0 {
        assert(p + t =~= p);
    } else {
        assert((p + t).drop_last() =~= p + t.drop_last());
        assert((p + t).last() == t.last());
        assert(t.contains(t.last())) by {
            assert(t[t.len() - 1] == t.last());
        }
        assert(!t.drop_last().contains('/')) by {
            if t.drop_last().contains('/') {
                let i = choose|i: int| 0 <= i < t.drop_last().len() && t.drop_last()[i] == '/';
                assert(t[i] == '/');
            }
        }
        lemma_last_sep_end_after_prefix(p, t.drop_last());
    }
}

/// Translating an asset to its backend denom and reading that denom back
/// gives the same asset: for a token whose address holds no `/`, and for a
/// native denom that does not begin with the adapter's prefix.
pub proof fn lemma_backend_denom_round_trip(adapter: Seq<char>, info: AssetInfoView, amount: u128)
    requires
        info is Token ==> !info.id().contains('/'),
        info is Native ==> !seq_starts_with(info.id(), wrapped_prefix(adapter)),
    ensures
        asset_of_backend_coin(adapter, CoinView { denom: backend_denom(adapter, info), amount })
            == (AssetView { info, amount }),
{
    match info {
        AssetInfoView::Token(a) => {
            let p = wrapped_prefix(adapter);
            let d = wrapped_denom(adapter, a);
            assert(d.subrange(0, p.len() as int) =~= p);
            assert(p.last() == '/');
            lemma_last_sep_end_after_prefix(p, a);
            assert(last_segment(d) =~= a);
        },
        AssetInfoView::Native(_) => {},
    }
}

impl AssetInfo {
    pub fn is_native_token(&self) -> (r: bool)
        ensures
            r == self@.is_native(),
    {
        match self {
            AssetInfo::NativeToken { .. } => true,
            AssetInfo::Token { .. } => false,
        }
    }

    /// Same kind and same identifier.
    pub fn equal(&self, other: &AssetInfo) -> (r: bool)
        ensures
            r == (self@ == other@),
    {
        match self {
            AssetInfo::Token { contract_addr: a } => match other {
                AssetInfo::Token { contract_addr: b } => a.eq(b),
                AssetInfo::NativeToken { .. } => false,
            },
            AssetInfo::NativeToken { denom: a } => match other {
                AssetInfo::NativeToken { denom: b } => a.eq(b),
                AssetInfo::Token { .. } => false,
            },
        }
    }

    /// The token address or the native denom.
    pub fn id(&self) -> (r: &String)
        ensures
            r@ == self@.id(),
    {
        match self {
            AssetInfo::Token { contract_addr } => contract_addr,
            AssetInfo::NativeToken { denom } => denom,
        }
    }

    pub fn duplicate(&self) -> (r: AssetInfo)
        ensures
            r@ == self@,
    {
        match self {
            AssetInfo::Token { contract_addr } => AssetInfo::Token {
                contract_addr: contract_addr.clone(),
            },
            AssetInfo::NativeToken { denom } => AssetInfo::NativeToken { denom: denom.clone() },
        }
    }
}

impl Coin {
    pub fn duplicate(&self) -> (r: Coin)
        ensures
            r@ == self@,
    {
        Coin { denom: self.denom.clone(), amount: self.amount }
    }
}

/// `factory/<adapter>/`.
pub fn wrapped_prefix_of(adapter: &String) -> (r: String)
    ensures
        r@ == wrapped_prefix(adapter@),
{
    let mut r = String::from_str("factory/");
    r.append(adapter.as_str());
    r.append("/");
    proof {
        reveal_strlit("factory/");
        reveal_strlit("/");
        assert(r@ =~= wrapped_prefix(adapter@));
    }
    r
}

/// The denom under which the adapter issues the token at `token`.
pub fn wrapped_denom_of(adapter: &String, token: &String) -> (r: String)
    ensures
        r@ == wrapped_denom(adapter@, token@),
{
    let mut r = wrapped_prefix_of(adapter);
    r.append(token.as_str());
    r
}

/// The denom that the backend pool holds for `info`: a native denom stays as
/// it is, a token becomes the denom that the adapter issues for it.
pub fn to_backend_denom(adapter: &String, info: &AssetInfo) -> (r: String)
    ensures
        r@ == backend_denom(adapter@, info@),
{
    match info {
        AssetInfo::NativeToken { denom } => denom.clone(),
        AssetInfo::Token { contract_addr } => wrapped_denom_of(adapter, contract_addr),
    }
}

/// Whether `s` begins with `p`.
pub fn starts_with(s: &String, p: &String) -> (r: bool)
    ensures
        r == seq_starts_with(s@, p@),
{
    let n = s.as_str().unicode_len();
    let m = p.as_str().unicode_len();
    if m > n {
        return false;
    }
    let mut i: usize = 0;
    while i < m
        invariant
            m == p@.len(),
            n == s@.len(),
            m <= n,
            i <= m,
            s@.subrange(0, i as int) == p@.subrange(0, i as int),
        decreases m - i,
    {
        if s.as_str().get_char(i) != p.as_str().get_char(i) {
            assert(s@.subrange(0, m as int)[i as int] != p@[i as int]);
            return false;
        }
        assert(s@.subrange(0, i + 1) =~= s@.subrange(0, i as int).push(s@[i as int]));
        assert(p@.subrange(0, i + 1) =~= p@.subrange(0, i as int).push(p@[i as int]));
        i = i + 1;
    }
    assert(p@.subrange(0, m as int) =~= p@);
    true
}

/// The part of `s` after its last `/`.
pub fn last_segment_of(s: &String) -> (r: String)
    ensures
        r@ == last_segment(s@),
{
    let n = s.as_str().unicode_len();
    let mut i: usize = n;
    proof {
        assert(s@.subrange(0, n as int) =~= s@);
    }
    while i > 0
        invariant
            n == s@.len(),
            i <= n,
            last_sep_end(s@) == last_sep_end(s@.subrange(0, i as int)),
        ensures
            i <= n,
            last_sep_end(s@) == last_sep_end(s@.subrange(0, i as int)),
            i == 0 || s@[i - 1] == '/',
        decreases i,
    {
        let c = s.as_str().get_char(i - 1);
        proof {
            let t = s@.subrange(0, i as int);
            assert(t.last() == c);
            assert(t.drop_last() =~= s@.subrange(0, i - 1));
        }
        if c == '/' {
            break;
        }
        i = i - 1;
    }
    proof {
        if i == 0 {
            assert(s@.subrange(0, 0) =~= Seq::<char>::empty());
        } else {
            assert(s@.subrange(0, i as int).last() == '/');
        }
    }
    String::from_str(s.as_str().substring_char(i, n))
}

/// The legacy asset that a backend coin stands for: a denom under the
/// adapter's prefix is read back as the token named by its last segment;
/// any other denom is a native asset.
pub fn from_backend_coin(adapter: &String, coin: &Coin) -> (r: Asset)
    ensures
        r@ == asset_of_backend_coin(adapter@, coin@),
{
    let prefix = wrapped_prefix_of(adapter);
    if starts_with(&coin.denom, &prefix) {
        Asset {
            info: AssetInfo::Token { contract_addr: last_segment_of(&coin.denom) },
            amount: coin.amount,
        }
    } else {
        Asset { info: AssetInfo::NativeToken { denom: coin.denom.clone() }, amount: coin.amount }
    }
}

} // verus!
