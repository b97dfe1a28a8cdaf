use vstd::prelude::*;

verus! {

/// The well-known port of the rendezvous service.
pub const RENDEZVOUS_PORT: u16 = 21116;

/// Which IP stack an address belongs to.
#[derive(Clone, Copy, Debug, PartialEq, Eq, Structural)]
pub enum Stack {
    V4,
    V6,
}

/// An IP address held as plain integers (network bit order, most significant first).
#[derive(Clone, Copy, Debug, PartialEq, Eq, Structural)]
pub enum IpAddress {
    V4(u32),
    V6 { bits: u128, scope_id: u32 },
}

/// One validated socket address to listen on.
#[derive(Clone, Copy, Debug, PartialEq, Eq, Structural)]
pub struct BindAddress {
    pub ip: IpAddress,
    pub port: u16,
}

impl BindAddress {
    pub open spec fn spec_stack(self) -> Stack {
        match self.ip {
            IpAddress::V4(_) => Stack::V4,
            IpAddress::V6 { .. } => Stack::V6,
        }
    }

    /// The stack tag of this address.
    pub fn stack(&self) -> (r: Stack)
        ensures
            r == self.spec_stack(),
    {
        match self.ip {
            IpAddress::V4(_) => Stack::V4,
            IpAddress::V6 { .. } => Stack::V6,
        }
    }

    /// `0.0.0.0:<port>`.
    pub fn any_v4(port: u16) -> (r: BindAddress)
        ensures
            r == any_v4_spec(port),
    {
        BindAddress { ip: IpAddress::V4(0), port }
    }

    /// `[::]:<port>`.
    pub fn any_v6(port: u16) -> (r: BindAddress)
        ensures
            r == any_v6_spec(port),
    {
        BindAddress { ip: IpAddress::V6 { bits: 0, scope_id: 0 }, port }
    }
}

pub open spec fn any_v4_spec(port: u16) -> BindAddress {
    BindAddress { ip: IpAddress::V4(0), port }
}

pub open spec fn any_v6_spec(port: u16) -> BindAddress {
    BindAddress { ip: IpAddress::V6 { bits: 0, scope_id: 0 }, port }
}

/// The listen list used when no bind option is given: both stacks'
/// unspecified addresses on one port.
pub fn default_bind_addresses(port: u16) -> (r: Vec<BindAddress>)
    ensures
        r@ == seq![any_v4_spec(port), any_v6_spec(port)],
{
    let mut v: Vec<BindAddress> = Vec::new();
    v.push(BindAddress::any_v4(port));
    v.push(BindAddress::any_v6(port));
    assert(v@ =~= seq![any_v4_spec(port), any_v6_spec(port)]);
    v
}

/// ASCII whitespace, as trimmed around each token.
pub open spec fn is_space(b: u8) -> bool {
    b == 32 || (9 <= b && b <= 13)
}

pub open spec fn trim_start(s: Seq<u8>) -> Seq<u8>
    decreases s.len(),
{
    if s.len() > 0 && is_space(s[0]) {
        trim_start(s.drop_first())
    } else {
        s
    }
}

pub open spec fn trim_end(s: Seq<u8>) -> Seq<u8>
    decreases s.len(),
{
    if s.len() > 0 && is_space(s.last()) {
        trim_end(s.drop_last())
    } else {
        s
    }
}

/// A token with the whitespace around it removed.
pub open spec fn trim(s: Seq<u8>) -> Seq<u8> {
    trim_end(trim_start(s))
}

/// The pieces of `s` between commas; an empty input is one empty piece.
pub open spec fn split_commas(s: Seq<u8>) -> Seq<Seq<u8>>
    decreases s.len(),
{
    if s.len() == 0 {
        seq![Seq::<u8>::empty()]
    } else {
        let p = split_commas(s.drop_last());
        if s.last() == 44u8 {
            p.push(Seq::<u8>::empty())
        } else {
            p.update(p.len() - 1, p.last().push(s.last()))
        }
    }
}

/// The tokens of the bind option, in input order.
pub open spec fn bind_tokens_spec(s: Seq<u8>) -> Seq<Seq<u8>> {
    split_commas(s).map_values(|t: Seq<u8>| trim(t))
}

proof fn lemma_split_nonempty(s: Seq<u8>)
    ensures
        split_commas(s).len() >= 1,
    decreases s.len(),
{
    if s.len() > 0 {
        lemma_split_nonempty(s.drop_last());
    }
}

fn copy_range(s: &[u8], lo: usize, hi: usize) -> (r: Vec<u8>)
    requires
        lo <= hi <= s@.len(),
    ensures
        r@ == s@.subrange(lo as int, hi as int),
{
    let mut r: Vec<u8> = Vec::new();
    let mut i: usize = lo;
    while i < hi
        invariant
            lo <= i <= hi <= s@.len(),
            r@ == s@.subrange(lo as int, i as int),
        decreases hi - i,
    {
        r.push(s[i]);
        i = i + 1;
        assert(r@ =~= s@.subrange(lo as int, i as int));
    }
    r
}

/// Removes the whitespace around `s`.
pub fn trim_bytes(s: &[u8]) -> (r: Vec<u8>)
    ensures
        r@ == trim(s@),
{
    let n = s.len();
    let mut lo: usize = 0;
    assert(s@.subrange(0, n as int) =~= s@);
    while lo < n && (s[lo] == 32 || (9 <= s[lo] && s[lo] <= 13))
        invariant
            lo <= n == s@.len(),
            trim_start(s@) == trim_start(s@.subrange(lo as int, n as int)),
        decreases n - lo,
    {
        assert(s@.subrange(lo as int, n as int).drop_first() =~= s@.subrange(lo + 1, n as int));
        lo = lo + 1;
    }
    assert(trim_start(s@) == s@.subrange(lo as int, n as int));
    let mut hi: usize = n;
    while hi > lo && (s[hi - 1] == 32 || (9 <= s[hi - 1] && s[hi - 1] <= 13))
        invariant
            lo <= hi <= n == s@.len(),
            trim(s@) == trim_end(s@.subrange(lo as int, hi as int)),
        decreases hi,
    {
        assert(s@.subrange(lo as int, hi as int).drop_last() =~= s@.subrange(lo as int, hi - 1));
        hi = hi - 1;
    }
    copy_range(s, lo, hi)
}

/// Splits the bind option at commas and trims each token.
pub fn bind_tokens(spec: &[u8]) -> (r: Vec<Vec<u8>>)
    ensures
        r@.len() == bind_tokens_spec(spec@).len(),
        forall|i: int| 0 <= i < r@.len() ==> #[trigger] r@[i]@ == bind_tokens_spec(spec@)[i],
{
    let n = spec.len();
    let mut done: Vec<Vec<u8>> = Vec::new();
    let mut start: usize = 0;
    let mut i: usize = 0;
    while i < n
        invariant
            start <= i <= n == spec@.len(),
            split_commas(spec@.subrange(0, i as int)).len() == done@.len() + 1,
            forall|k: int| 0 <= k < done@.len() ==> #[trigger] done@[k]@ == trim(split_commas(spec@.subrange(0, i as int))[k]),
            split_commas(spec@.subrange(0, i as int)).last() == spec@.subrange(start as int, i as int),
        decreases n - i,
    {
        let ghost pre = spec@.subrange(0, i as int);
        let ghost cur = spec@.subrange(0, i + 1);
        assert(cur.drop_last() =~= pre);
        if spec[i] == 44 {
            let piece = copy_range(spec, start, i);
            let t = trim_bytes(piece.as_slice());
            done.push(t);
            start = i + 1;
            assert(spec@.subrange(start as int, i + 1) =~= Seq::<u8>::empty());
        } else {
            assert(spec@.subrange(start as int, i + 1) =~= spec@.subrange(start as int, i as int).push(spec@[i as int]));
        }
        i = i + 1;
    }
    let piece = copy_range(spec, start, n);
    let t = trim_bytes(piece.as_slice());
    done.push(t);
    assert(spec@.subrange(0, n as int) =~= spec@);
    done
}

/// Why the bind option was refused.
#[derive(Clone, Debug, PartialEq, Eq)]
pub enum AddressError {
    /// The token at `index` (after trimming) is not a socket address; `cause`
    /// is the parser's reason.
    InvalidAddress { index: usize, token: Vec<u8>, cause: String },
}

/// Every token parsed as an address.
pub open spec fn all_parsed(p: Seq<Result<BindAddress, String>>) -> bool {
    forall|i: int| 0 <= i < p.len() ==> #[trigger] p[i] is Ok
}

/// `k` is the first token that did not parse.
pub open spec fn is_first_failure(p: Seq<Result<BindAddress, String>>, k: int) -> bool {
    &&& 0 <= k < p.len()
    &&& p[k] is Err
    &&& forall|j: int| 0 <= j < k ==> #[trigger] p[j] is Ok
}

/// The listen list made from tokens that all parsed: the parsed addresses in
/// token order, or, where there is none, the legacy port on `0.0.0.0`.
pub open spec fn resolved_list(p: Seq<Result<BindAddress, String>>, legacy_port: u16) -> Seq<BindAddress> {
    if p.len() == 0 {
        seq![any_v4_spec(legacy_port)]
    } else {
        p.map_values(|r: Result<BindAddress, String>| r->Ok_0)
    }
}

/// Builds the listen list from the tokens of the bind option and what
/// each token parsed to (`parsed[i]` belongs to `tokens[i]`). The first token
/// that did not parse aborts the whole resolution and is named in the error.
pub fn resolve_bind_addresses(
    tokens: &Vec<Vec<u8>>,
    parsed: &Vec<Result<BindAddress, String>>,
    legacy_port: u16,
) -> (r: Result<Vec<BindAddress>, AddressError>)
    requires
        tokens@.len() == parsed@.len(),
    ensures
        r is Ok <==> all_parsed(parsed@),
        r matches Ok(v) ==> v@ == resolved_list(parsed@, legacy_port),
        r matches Err(AddressError::InvalidAddress { index, token, cause }) ==> {
            &&& is_first_failure(parsed@, index as int)
            &&& token@ == tokens@[index as int]@
            &&& cause == parsed@[index as int]->Err_0
        },
{
    let mut out: Vec<BindAddress> = Vec::new();
    let mut i: usize = 0;
    while i < parsed.len()
        invariant
            i <= parsed@.len() == tokens@.len(),
            forall|j: int| 0 <= j < i ==> #[trigger] parsed@[j] is Ok,
            out@ == parsed@.subrange(0, i as int).map_values(|r: Result<BindAddress, String>| r->Ok_0),
        decreases parsed@.len() - i,
    {
        match &parsed[i] {
            Ok(a) => {
                out.push(*a);
                assert(out@ =~= parsed@.subrange(0, i + 1).map_values(|r: Result<BindAddress, String>| r->Ok_0));
            },
            Err(c) => {
                let token = copy_range(tokens[i].as_slice(), 0, tokens[i].len());
                assert(tokens@[i as int]@.subrange(0, tokens@[i as int]@.len() as int) =~= tokens@[i as int]@);
                return Err(AddressError::InvalidAddress { index: i, token, cause: c.clone() });
            },
        }
        i = i + 1;
    }
    if out.len() == 0 {
        out.push(BindAddress::any_v4(legacy_port));
        assert(out@ =~= seq![any_v4_spec(legacy_port)]);
    } else {
        assert(parsed@.subrange(0, i as int) =~= parsed@);
    }
    Ok(out)
}

/// Whenever every token of the bind option parses, the listen list holds
/// exactly one address per token, in the order of the tokens.
pub proof fn lemma_one_address_per_token(
    spec: Seq<u8>,
    parsed: Seq<Result<BindAddress, String>>,
    legacy_port: u16,
)
    requires
        parsed.len() == bind_tokens_spec(spec).len(),
        all_parsed(parsed),
    ensures
        resolved_list(parsed, legacy_port).len() == bind_tokens_spec(spec).len(),
        forall|i: int|
            0 <= i < parsed.len() ==> parsed[i] == Ok::<BindAddress, String>(
                #[trigger] resolved_list(parsed, legacy_port)[i],
            ),
{
    lemma_split_nonempty(spec);
    assert forall|i: int| 0 <= i < parsed.len() implies parsed[i] == Ok::<BindAddress, String>(
        resolved_list(parsed, legacy_port)[i],
    ) by {
        assert(parsed[i] is Ok);
    }
}

} // verus!
