//! Custom-id RPC codec: a colon-delimited string (`name:arg1:arg2:...`)
//! carried as an opaque identifier on UI elements. Encoding joins the name
//! and the positional arguments with `:`; no escaping is performed, so field
//! values must not contain the delimiter. Decoding splits on `:`; the first
//! segment is the routing name, the rest the ordered argument list.
use vstd::prelude::*;

verus! {

/// The string has no delimiter in it.
pub open spec fn colon_free(s: Seq<char>) -> bool {
    forall|i: int| 0 <= i < s.len() ==> s[i] != ':'
}

/// Splitting on `:`. Always yields at least one segment; the empty string
/// yields one empty segment.
pub open spec fn spec_split(s: Seq<char>) -> Seq<Seq<char>>
    decreases s.len(),
{
    if s.len() == 0 {
        seq![s]
    } else if s[0] == ':' {
        seq![Seq::<char>::empty()] + spec_split(s.drop_first())
    } else {
        let rest = spec_split(s.drop_first());
        seq![seq![s[0]] + rest[0]] + rest.drop_first()
    }
}

/// Joining segments with `:`.
pub open spec fn spec_join(segs: Seq<Seq<char>>) -> Seq<char>
    decreases segs.len(),
{
    if segs.len() == 0 {
        Seq::empty()
    } else if segs.len() == 1 {
        segs[0]
    } else {
        segs[0] + seq![':'] + spec_join(segs.drop_first())
    }
}

/// What `encode_rpc` produces: the name followed by each argument, all
/// joined with `:`.
pub open spec fn spec_encode(name: Seq<char>, args: Seq<Seq<char>>) -> Seq<char> {
    spec_join(seq![name] + args)
}

/// A split yields at least one segment.
pub proof fn lemma_split_len(s: Seq<char>)
    ensures
        spec_split(s).len() >= 1,
    decreases s.len(),
{
    if s.len() != 0 {
        lemma_split_len(s.drop_first());
    }
}

/// A delimiter-free string is one whole segment.
pub proof fn lemma_split_colon_free(s: Seq<char>)
    requires
        colon_free(s),
    ensures
        spec_split(s) == seq![s],
    decreases s.len(),
{
    if s.len() == 0 {
        assert(spec_split(s) =~= seq![s]);
    } else {
        assert(s[0] != ':');
        lemma_split_colon_free(s.drop_first());
        lemma_split_len(s.drop_first());
        let rest = spec_split(s.drop_first());
        assert(rest == seq![s.drop_first()]);
        assert(seq![s[0]] + rest[0] =~= s);
        assert(spec_split(s) =~= seq![s]);
    }
}

/// Splitting at the first delimiter: a delimiter-free prefix becomes the
/// first segment, the remainder is split on its own.
pub proof fn lemma_split_at_colon(a: Seq<char>, t: Seq<char>)
    requires
        colon_free(a),
    ensures
        spec_split(a + seq![':'] + t) == seq![a] + spec_split(t),
    decreases a.len(),
{
    let s = a + seq![':'] + t;
    if a.len() == 0 {
        assert(s[0] == ':');
        assert(s.drop_first() =~= t);
        assert(a =~= Seq::<char>::empty());
        assert(seq![Seq::<char>::empty()] + spec_split(t) =~= seq![a] + spec_split(t));
    } else {
        assert(s[0] == a[0]);
        assert(a[0] != ':');
        assert(s.drop_first() =~= a.drop_first() + seq![':'] + t);
        assert(colon_free(a.drop_first()));
        lemma_split_at_colon(a.drop_first(), t);
        let rest = spec_split(s.drop_first());
        assert(rest == seq![a.drop_first()] + spec_split(t));
        lemma_split_len(t);
        assert(rest[0] == a.drop_first());
        assert(seq![s[0]] + rest[0] =~= a);
        assert(rest.drop_first() =~= spec_split(t));
        assert(spec_split(s) =~= seq![a] + spec_split(t));
    }
}

/// Appending one more segment to a join.
pub proof fn lemma_join_push(segs: Seq<Seq<char>>, x: Seq<char>)
    requires
        segs.len() >= 1,
    ensures
        spec_join(segs.push(x)) == spec_join(segs) + seq![':'] + x,
    decreases segs.len(),
{
    if segs.len() == 1 {
        let p = segs.push(x);
        assert(p.len() == 2);
        assert(p.drop_first() =~= seq![x]);
        assert(spec_join(p.drop_first()) == x);
        assert(spec_join(p) =~= segs[0] + seq![':'] + x);
    } else {
        let p = segs.push(x);
        assert(p.drop_first() =~= segs.drop_first().push(x));
        lemma_join_push(segs.drop_first(), x);
        assert(spec_join(p) =~= spec_join(segs) + seq![':'] + x);
    }
}

/// Law: splitting a join restores the segments exactly, provided no
/// segment contains the delimiter.
pub proof fn lemma_split_join(segs: Seq<Seq<char>>)
    requires
        segs.len() >= 1,
        forall|i: int| 0 <= i < segs.len() ==> colon_free(#[trigger] segs[i]),
    ensures
        spec_split(spec_join(segs)) == segs,
    decreases segs.len(),
{
    if segs.len() == 1 {
        lemma_split_colon_free(segs[0]);
        assert(spec_split(spec_join(segs)) =~= segs);
    } else {
        let rest = segs.drop_first();
        assert(forall|i: int| 0 <= i < rest.len() ==> colon_free(#[trigger] rest[i]));
        lemma_split_join(rest);
        lemma_split_at_colon(segs[0], spec_join(rest));
        assert(spec_split(spec_join(segs)) =~= seq![segs[0]] + rest);
        assert(seq![segs[0]] + rest =~= segs);
    }
}

/// Law: decoding an encoded pair restores the name and the arguments
/// exactly, provided no field contains the delimiter and the pair is not
/// the empty name with no arguments (whose encoding is the empty string,
/// which decoding rejects).
pub proof fn lemma_rpc_round_trip(name: Seq<char>, args: Seq<Seq<char>>)
    requires
        colon_free(name),
        forall|i: int| 0 <= i < args.len() ==> colon_free(#[trigger] args[i]),
        name.len() > 0 || args.len() > 0,
    ensures
        spec_encode(name, args).len() > 0,
        spec_split(spec_encode(name, args)) == seq![name] + args,
{
    let segs = seq![name] + args;
    assert(forall|i: int| 0 <= i < segs.len() ==> colon_free(#[trigger] segs[i]));
    lemma_split_join(segs);
    if args.len() == 0 {
        assert(spec_join(segs) == name);
    } else {
        assert(segs.len() >= 2);
        assert(spec_join(segs) == segs[0] + seq![':'] + spec_join(segs.drop_first()));
        assert(spec_join(segs).len() > 0);
    }
}

/// Encode a routing name and positional arguments as one custom-id string.
/// No escaping: a field holding the delimiter will not round-trip.
pub fn encode_rpc(name: &str, args: &Vec<String>) -> (r: String)
    ensures
        r@ == spec_encode(name@, args.deep_view()),
{
    let mut out: String = name.to_owned();
    let n = args.len();
    let mut i: usize = 0;
    proof {
        assert(seq![name@] + args.deep_view().take(0int) =~= seq![name@]);
        assert(spec_encode(name@, args.deep_view().take(0int)) == name@);
    }
    while i < n
        invariant
            0 <= i <= n,
            n == args.len(),
            out@ == spec_encode(name@, args.deep_view().take(i as int)),
        decreases n - i,
    {
        out.append(":");
        out.append(args[i].as_str());
        proof {
            reveal_strlit(":");
            let dv = args.deep_view();
            assert(dv[i as int] == args@[i as int]@);
            assert(seq![name@] + dv.take(i as int + 1) =~= (seq![name@] + dv.take(i as int)).push(
                dv[i as int],
            ));
            lemma_join_push(seq![name@] + dv.take(i as int), dv[i as int]);
            assert(":"@ =~= seq![':']);
        }
        i += 1;
    }
    proof {
        assert(args.deep_view().take(n as int) =~= args.deep_view());
    }
    out
}

/// Decoding rejected: the custom-id string was empty, so it has no
/// routing name at all.
#[derive(Debug)]
pub struct NoNameInRpc;

/// Split a custom-id string into all of its `:`-separated segments.
fn split_colons(s: &str) -> (r: Vec<String>)
    ensures
        r.deep_view() == spec_split(s@),
{
    let n = s.unicode_len();
    let mut r: Vec<String> = Vec::new();
    let mut start: usize = 0;
    let mut i: usize = 0;
    proof {
        assert(r.deep_view() =~= Seq::<Seq<char>>::empty());
        assert(s@.skip(0int) =~= s@);
        assert(r.deep_view() + spec_split(s@) =~= spec_split(s@));
    }
    while i < n
        invariant
            0 <= start <= i <= n,
            n == s@.len(),
            colon_free(s@.subrange(start as int, i as int)),
            spec_split(s@) == r.deep_view() + spec_split(s@.skip(start as int)),
        decreases n - i,
    {
        let c = s.get_char(i);
        if c == ':' {
            let seg = s.substring_char(start, i).to_owned();
            proof {
                let tail = s@.skip(start as int);
                let pre = s@.subrange(start as int, i as int);
                assert(tail =~= pre + seq![':'] + s@.skip(i as int + 1));
                lemma_split_at_colon(pre, s@.skip(i as int + 1));
            }
            let ghost r0 = r.deep_view();
            r.push(seg);
            proof {
                assert(r.deep_view() =~= r0.push(seg@));
                assert(r.deep_view() + spec_split(s@.skip(i as int + 1)) =~= r0 + (seq![seg@]
                    + spec_split(s@.skip(i as int + 1))));
            }
            start = i + 1;
        }
        proof {
            assert(colon_free(s@.subrange(start as int, i as int + 1)));
        }
        i += 1;
    }
    let seg = s.substring_char(start, n).to_owned();
    proof {
        let tail = s@.skip(start as int);
        assert(tail =~= s@.subrange(start as int, n as int));
        lemma_split_colon_free(tail);
    }
    let ghost r0 = r.deep_view();
    r.push(seg);
    proof {
        assert(r.deep_view() =~= r0.push(seg@));
        assert(r0.push(seg@) =~= r0 + seq![seg@]);
    }
    r
}

/// Decode a custom-id string into its routing name and ordered argument
/// list. Fails only when the input is empty: there is no first segment.
pub fn get_custom_id_rpc(custom_id: &str) -> (r: Result<(String, Vec<String>), NoNameInRpc>)
    ensures
        r is Err <==> custom_id@.len() == 0,
        r matches Ok(p) ==> seq![p.0@] + p.1.deep_view() == spec_split(custom_id@),
{
    if custom_id.unicode_len() == 0 {
        return Err(NoNameInRpc);
    }
    let mut segs = split_colons(custom_id);
    proof {
        lemma_split_len(custom_id@);
        assert(segs.deep_view().len() == segs@.len());
    }
    let name = segs.remove(0);
    proof {
        assert(seq![name@] + segs.deep_view() =~= spec_split(custom_id@));
    }
    Ok((name, segs))
}

/// A decimal digit.
pub open spec fn is_dec_digit(c: char) -> bool {
    '0' <= c && c <= '9'
}

/// The value of one decimal digit.
pub open spec fn digit_val(c: char) -> int {
    c as int - 48
}

/// Every character is a decimal digit.
pub open spec fn all_digits(s: Seq<char>) -> bool {
    forall|i: int| 0 <= i < s.len() ==> is_dec_digit(s[i])
}

/// The number that a digit string denotes, most significant digit first.
pub open spec fn dec_value(s: Seq<char>) -> int
    decreases s.len(),
{
    if s.len() == 0 {
        0
    } else {
        dec_value(s.drop_last()) * 10 + digit_val(s.last())
    }
}

/// The text parses as an unsigned 64-bit integer: nonempty, digits only,
/// and within range.
pub open spec fn valid_u64_text(s: Seq<char>) -> bool {
    s.len() > 0 && all_digits(s) && dec_value(s) <= u64::MAX
}

/// A digit string denotes a nonnegative number.
proof fn lemma_dec_value_nonneg(s: Seq<char>)
    requires
        all_digits(s),
    ensures
        dec_value(s) >= 0,
    decreases s.len(),
{
    if s.len() > 0 {
        assert(all_digits(s.drop_last()));
        lemma_dec_value_nonneg(s.drop_last());
    }
}

/// Extending a digit string never shrinks its value.
proof fn lemma_dec_value_prefix(s: Seq<char>, j: int)
    requires
        all_digits(s),
        0 <= j <= s.len(),
    ensures
        dec_value(s) >= dec_value(s.take(j)),
    decreases s.len() - j,
{
    if j < s.len() {
        let t = s.take(j + 1);
        assert(t.drop_last() =~= s.take(j));
        assert(all_digits(s.take(j)));
        lemma_dec_value_nonneg(s.take(j));
        assert(dec_value(t) == dec_value(s.take(j)) * 10 + digit_val(s[j]));
        assert(dec_value(s.take(j)) * 10 >= dec_value(s.take(j)));
        lemma_dec_value_prefix(s, j + 1);
    } else {
        assert(s.take(j) =~= s);
    }
}

/// Parse a decimal string as an unsigned 64-bit integer. Accepts exactly
/// the nonempty all-digit strings whose value fits.
pub fn parse_u64(s: &str) -> (r: Option<u64>)
    ensures
        r is Some <==> valid_u64_text(s@),
        r matches Some(v) ==> v as int == dec_value(s@),
{
    let n = s.unicode_len();
    if n == 0 {
        return None;
    }
    let mut acc: u64 = 0;
    let mut i: usize = 0;
    proof {
        assert(s@.take(0int) =~= Seq::<char>::empty());
    }
    while i < n
        invariant
            0 <= i <= n,
            n == s@.len(),
            all_digits(s@.take(i as int)),
            acc as int == dec_value(s@.take(i as int)),
        decreases n - i,
    {
        let c = s.get_char(i);
        let u = c as u32;
        if u < 48 || u > 57 {
            proof {
                assert(!is_dec_digit(s@[i as int]));
            }
            return None;
        }
        let d: u64 = ((u - 48) as u64);
        proof {
            assert(s@.take(i as int + 1).drop_last() =~= s@.take(i as int));
            assert(s@.take(i as int + 1).last() == s@[i as int]);
            assert(d as int == digit_val(s@[i as int]));
        }
        if acc > (u64::MAX - d) / 10 {
            proof {
                assert(dec_value(s@.take(i as int + 1)) == acc * 10 + d);
                assert(acc * 10 + d > u64::MAX) by (nonlinear_arith)
                    requires
                        acc > (u64::MAX - d) / 10,
                        0 <= d <= 9,
                ;
                if all_digits(s@) {
                    lemma_dec_value_prefix(s@, i as int + 1);
                    assert(dec_value(s@) > u64::MAX);
                }
            }
            return None;
        }
        proof {
            assert(acc * 10 + d <= u64::MAX) by (nonlinear_arith)
                requires
                    acc <= (u64::MAX - d) / 10,
                    0 <= d <= 9,
            ;
        }
        acc = acc * 10 + d;
        i += 1;
    }
    proof {
        assert(s@.take(n as int) =~= s@);
    }
    Some(acc)
}

/// The character for one decimal digit.
pub open spec fn spec_digit(d: int) -> char {
    if d == 0 {
        '0'
    } else if d == 1 {
        '1'
    } else if d == 2 {
        '2'
    } else if d == 3 {
        '3'
    } else if d == 4 {
        '4'
    } else if d == 5 {
        '5'
    } else if d == 6 {
        '6'
    } else if d == 7 {
        '7'
    } else if d == 8 {
        '8'
    } else {
        '9'
    }
}

/// The canonical decimal text of an unsigned 64-bit integer: most
/// significant digit first, no leading zeros.
pub open spec fn spec_u64_dec(n: u64) -> Seq<char>
    decreases n,
{
    if n < 10 {
        seq![spec_digit(n as int)]
    } else {
        spec_u64_dec(n / 10) + seq![spec_digit((n % 10) as int)]
    }
}

/// The canonical decimal text denotes its number and is digits only.
pub proof fn lemma_u64_dec_value(n: u64)
    ensures
        spec_u64_dec(n).len() > 0,
        all_digits(spec_u64_dec(n)),
        dec_value(spec_u64_dec(n)) == n as int,
    decreases n,
{
    if n < 10 {
        let s = spec_u64_dec(n);
        assert(s.len() == 1);
        assert(dec_value(s) == dec_value(s.drop_last()) * 10 + digit_val(s.last()));
        assert(s.drop_last() =~= Seq::<char>::empty());
        assert(dec_value(Seq::<char>::empty()) == 0);
        assert(s.last() == spec_digit(n as int));
        assert(digit_val(spec_digit(n as int)) == n as int);
    } else {
        lemma_u64_dec_value(n / 10);
        let s = spec_u64_dec(n);
        assert(s.len() > 0);
        assert(s.drop_last() =~= spec_u64_dec(n / 10));
        assert(s.last() == spec_digit((n % 10) as int));
        assert(digit_val(spec_digit((n % 10) as int)) == (n % 10) as int);
        assert(dec_value(s) == dec_value(spec_u64_dec(n / 10)) * 10 + digit_val(s.last()));
        assert(dec_value(s) == (n / 10) as int * 10 + (n % 10) as int);
        assert(n as int == (n / 10) as int * 10 + (n % 10) as int) by (nonlinear_arith);
        assert forall|i: int| 0 <= i < s.len() implies is_dec_digit(s[i]) by {
            if i < s.len() - 1 {
                assert(s[i] == spec_u64_dec(n / 10)[i]);
            }
        }
    }
}

/// A digit string never contains the delimiter.
pub proof fn lemma_digits_colon_free(s: Seq<char>)
    requires
        all_digits(s),
    ensures
        colon_free(s),
{
    assert forall|i: int| 0 <= i < s.len() implies s[i] != ':' by {
        assert(is_dec_digit(s[i]));
        assert(s[i] as int <= 57);
        assert(':' as int == 58);
    }
}

/// The one-character string for a digit.
fn digit_str(d: u64) -> (r: &'static str)
    requires
        d < 10,
    ensures
        r@ == seq![spec_digit(d as int)],
{
    proof {
        reveal_strlit("0");
        reveal_strlit("1");
        reveal_strlit("2");
        reveal_strlit("3");
        reveal_strlit("4");
        reveal_strlit("5");
        reveal_strlit("6");
        reveal_strlit("7");
        reveal_strlit("8");
        reveal_strlit("9");
    }
    let r = if d == 0 {
        "0"
    } else if d == 1 {
        "1"
    } else if d == 2 {
        "2"
    } else if d == 3 {
        "3"
    } else if d == 4 {
        "4"
    } else if d == 5 {
        "5"
    } else if d == 6 {
        "6"
    } else if d == 7 {
        "7"
    } else if d == 8 {
        "8"
    } else {
        "9"
    };
    proof {
        assert(r@ =~= seq![spec_digit(d as int)]);
    }
    r
}

/// Render an unsigned 64-bit integer as its canonical decimal text.
pub fn u64_to_dec(n: u64) -> (r: String)
    ensures
        r@ == spec_u64_dec(n),
    decreases n,
{
    if n < 10 {
        digit_str(n).to_owned()
    } else {
        let mut s = u64_to_dec(n / 10);
        s.append(digit_str(n % 10));
        proof {
            assert(s@ =~= spec_u64_dec(n));
        }
        s
    }
}

/// A value that can stand as one positional argument of a custom-id RPC
/// string: it has a text form, and parsing pins the value.
pub trait CidArg: Sized {
    /// Whether this text parses as a value of the type.
    spec fn parse_ok(s: Seq<char>) -> bool;

    /// The value this text parses to.
    spec fn parses_to(s: Seq<char>, v: &Self) -> bool;

    /// Parse one argument.
    fn parse_arg(s: &String) -> (r: Option<Self>)
        ensures
            r is Some <==> Self::parse_ok(s@),
            r matches Some(v) ==> Self::parses_to(s@, &v),
    ;
}

impl CidArg for u64 {
    open spec fn parse_ok(s: Seq<char>) -> bool {
        valid_u64_text(s)
    }

    open spec fn parses_to(s: Seq<char>, v: &Self) -> bool {
        *v as int == dec_value(s)
    }

    fn parse_arg(s: &String) -> (r: Option<Self>) {
        parse_u64(s.as_str())
    }
}

impl CidArg for String {
    open spec fn parse_ok(s: Seq<char>) -> bool {
        true
    }

    open spec fn parses_to(s: Seq<char>, v: &Self) -> bool {
        v@ == s
    }

    fn parse_arg(s: &String) -> (r: Option<Self>) {
        Some(s.clone())
    }
}

/// Typed decoding of an argument slice rejected.
#[derive(Debug, Clone, Copy, PartialEq, Eq, Structural)]
pub enum FromCidArgsError {
    /// The argument at this position was not convertible to its target type.
    UnconvertibleArgs(usize),
    /// Too few arguments: this many positional arguments are missing.
    RequiredCustomIdArgMissing(usize),
    /// Too many arguments: the expected count, then the actual count.
    ExtraCustomIdArgs(usize, usize),
}

/// Typed decoding of an ordered argument slice into a tuple. The slice's
/// length must equal the tuple's arity exactly; too few or too many
/// arguments give a count-mismatch error carrying the counts, and a
/// non-parsing element gives an unconvertible error.
pub trait FromCidArgs: Sized {
    /// How many arguments the tuple expects.
    spec fn arity() -> nat;

    /// Whether every element parses, given a slice of the right length.
    spec fn args_ok(args: Seq<Seq<char>>) -> bool;

    /// The decoded tuple is the elementwise parse, in order.
    spec fn args_match(args: Seq<Seq<char>>, v: &Self) -> bool;

    /// Decode the argument slice.
    fn from_args(args: &Vec<String>) -> (r: Result<Self, FromCidArgsError>)
        ensures
            r is Ok <==> (args@.len() == Self::arity() && Self::args_ok(args.deep_view())),
            (r matches Ok(v) ==> Self::args_match(args.deep_view(), &v)),
            args@.len() < Self::arity() ==> (r matches Err(e) && e
                == FromCidArgsError::RequiredCustomIdArgMissing(
                ((Self::arity() - args@.len()) as usize),
            )),
            args@.len() > Self::arity() ==> (r matches Err(e) && e
                == FromCidArgsError::ExtraCustomIdArgs(
                (Self::arity() as usize),
                (args@.len() as usize),
            )),
            (args@.len() == Self::arity() && !Self::args_ok(args.deep_view())) ==> (r matches Err(e)
                && e is UnconvertibleArgs),
    ;
}

impl<T1: CidArg> FromCidArgs for (T1,) {
    open spec fn arity() -> nat {
        1
    }

    open spec fn args_ok(args: Seq<Seq<char>>) -> bool {
        T1::parse_ok(args[0])
    }

    open spec fn args_match(args: Seq<Seq<char>>, v: &Self) -> bool {
        T1::parses_to(args[0], &v.0)
    }

    fn from_args(args: &Vec<String>) -> (r: Result<Self, FromCidArgsError>) {
        if args.len() < 1 {
            return Err(FromCidArgsError::RequiredCustomIdArgMissing(1 - args.len()));
        }
        if args.len() > 1 {
            return Err(FromCidArgsError::ExtraCustomIdArgs(1, args.len()));
        }
        proof {
            assert(args.deep_view()[0] == args@[0]@);
        }
        let v0 = match T1::parse_arg(&args[0]) {
            Some(v) => v,
            None => {
                return Err(FromCidArgsError::UnconvertibleArgs(0));
            },
        };
        Ok((v0,))
    }
}

impl<T1: CidArg, T2: CidArg> FromCidArgs for (T1, T2) {
    open spec fn arity() -> nat {
        2
    }

    open spec fn args_ok(args: Seq<Seq<char>>) -> bool {
        T1::parse_ok(args[0]) && T2::parse_ok(args[1])
    }

    open spec fn args_match(args: Seq<Seq<char>>, v: &Self) -> bool {
        T1::parses_to(args[0], &v.0) && T2::parses_to(args[1], &v.1)
    }

    fn from_args(args: &Vec<String>) -> (r: Result<Self, FromCidArgsError>) {
        if args.len() < 2 {
            return Err(FromCidArgsError::RequiredCustomIdArgMissing(2 - args.len()));
        }
        if args.len() > 2 {
            return Err(FromCidArgsError::ExtraCustomIdArgs(2, args.len()));
        }
        proof {
            assert(args.deep_view()[0] == args@[0]@);
            assert(args.deep_view()[1] == args@[1]@);
        }
        let v0 = match T1::parse_arg(&args[0]) {
            Some(v) => v,
            None => {
                return Err(FromCidArgsError::UnconvertibleArgs(0));
            },
        };
        let v1 = match T2::parse_arg(&args[1]) {
            Some(v) => v,
            None => {
                return Err(FromCidArgsError::UnconvertibleArgs(1));
            },
        };
        Ok((v0, v1))
    }
}

impl<T1: CidArg, T2: CidArg, T3: CidArg> FromCidArgs for (T1, T2, T3) {
    open spec fn arity() -> nat {
        3
    }

    open spec fn args_ok(args: Seq<Seq<char>>) -> bool {
        T1::parse_ok(args[0]) && T2::parse_ok(args[1]) && T3::parse_ok(args[2])
    }

    open spec fn args_match(args: Seq<Seq<char>>, v: &Self) -> bool {
        T1::parses_to(args[0], &v.0) && T2::parses_to(args[1], &v.1) && T3::parses_to(args[2], &v.2)
    }

    fn from_args(args: &Vec<String>) -> (r: Result<Self, FromCidArgsError>) {
        if args.len() < 3 {
            return Err(FromCidArgsError::RequiredCustomIdArgMissing(3 - args.len()));
        }
        if args.len() > 3 {
            return Err(FromCidArgsError::ExtraCustomIdArgs(3, args.len()));
        }
        proof {
            assert(args.deep_view()[0] == args@[0]@);
            assert(args.deep_view()[1] == args@[1]@);
            assert(args.deep_view()[2] == args@[2]@);
        }
        let v0 = match T1::parse_arg(&args[0]) {
            Some(v) => v,
            None => {
                return Err(FromCidArgsError::UnconvertibleArgs(0));
            },
        };
        let v1 = match T2::parse_arg(&args[1]) {
            Some(v) => v,
            None => {
                return Err(FromCidArgsError::UnconvertibleArgs(1));
            },
        };
        let v2 = match T3::parse_arg(&args[2]) {
            Some(v) => v,
            None => {
                return Err(FromCidArgsError::UnconvertibleArgs(2));
            },
        };
        Ok((v0, v1, v2))
    }
}

impl<T1: CidArg, T2: CidArg, T3: CidArg, T4: CidArg> FromCidArgs for (T1, T2, T3, T4) {
    open spec fn arity() -> nat {
        4
    }

    open spec fn args_ok(args: Seq<Seq<char>>) -> bool {
        T1::parse_ok(args[0]) && T2::parse_ok(args[1]) && T3::parse_ok(args[2]) && T4::parse_ok(args[3])
    }

    open spec fn args_match(args: Seq<Seq<char>>, v: &Self) -> bool {
        T1::parses_to(args[0], &v.0) && T2::parses_to(args[1], &v.1) && T3::parses_to(args[2], &v.2) && T4::parses_to(args[3], &v.3)
    }

    fn from_args(args: &Vec<String>) -> (r: Result<Self, FromCidArgsError>) {
        if args.len() < 4 {
            return Err(FromCidArgsError::RequiredCustomIdArgMissing(4 - args.len()));
        }
        if args.len() > 4 {
            return Err(FromCidArgsError::ExtraCustomIdArgs(4, args.len()));
        }
        proof {
            assert(args.deep_view()[0] == args@[0]@);
            assert(args.deep_view()[1] == args@[1]@);
            assert(args.deep_view()[2] == args@[2]@);
            assert(args.deep_view()[3] == args@[3]@);
        }
        let v0 = match T1::parse_arg(&args[0]) {
            Some(v) => v,
            None => {
                return Err(FromCidArgsError::UnconvertibleArgs(0));
            },
        };
        let v1 = match T2::parse_arg(&args[1]) {
            Some(v) => v,
            None => {
                return Err(FromCidArgsError::UnconvertibleArgs(1));
            },
        };
        let v2 = match T3::parse_arg(&args[2]) {
            Some(v) => v,
            None => {
                return Err(FromCidArgsError::UnconvertibleArgs(2));
            },
        };
        let v3 = match T4::parse_arg(&args[3]) {
            Some(v) => v,
            None => {
                return Err(FromCidArgsError::UnconvertibleArgs(3));
            },
        };
        Ok((v0, v1, v2, v3))
    }
}

impl<T1: CidArg, T2: CidArg, T3: CidArg, T4: CidArg, T5: CidArg> FromCidArgs for (T1, T2, T3, T4, T5) {
    open spec fn arity() -> nat {
        5
    }

    open spec fn args_ok(args: Seq<Seq<char>>) -> bool {
        T1::parse_ok(args[0]) && T2::parse_ok(args[1]) && T3::parse_ok(args[2]) && T4::parse_ok(args[3]) && T5::parse_ok(args[4])
    }

    open spec fn args_match(args: Seq<Seq<char>>, v: &Self) -> bool {
        T1::parses_to(args[0], &v.0) && T2::parses_to(args[1], &v.1) && T3::parses_to(args[2], &v.2) && T4::parses_to(args[3], &v.3) && T5::parses_to(args[4], &v.4)
    }

    fn from_args(args: &Vec<String>) -> (r: Result<Self, FromCidArgsError>) {
        if args.len() < 5 {
            return Err(FromCidArgsError::RequiredCustomIdArgMissing(5 - args.len()));
        }
        if args.len() > 5 {
            return Err(FromCidArgsError::ExtraCustomIdArgs(5, args.len()));
        }
        proof {
            assert(args.deep_view()[0] == args@[0]@);
            assert(args.deep_view()[1] == args@[1]@);
            assert(args.deep_view()[2] == args@[2]@);
            assert(args.deep_view()[3] == args@[3]@);
            assert(args.deep_view()[4] == args@[4]@);
        }
        let v0 = match T1::parse_arg(&args[0]) {
            Some(v) => v,
            None => {
                return Err(FromCidArgsError::UnconvertibleArgs(0));
            },
        };
        let v1 = match T2::parse_arg(&args[1]) {
            Some(v) => v,
            None => {
                return Err(FromCidArgsError::UnconvertibleArgs(1));
            },
        };
        let v2 = match T3::parse_arg(&args[2]) {
            Some(v) => v,
            None => {
                return Err(FromCidArgsError::UnconvertibleArgs(2));
            },
        };
        let v3 = match T4::parse_arg(&args[3]) {
            Some(v) => v,
            None => {
                return Err(FromCidArgsError::UnconvertibleArgs(3));
            },
        };
        let v4 = match T5::parse_arg(&args[4]) {
            Some(v) => v,
            None => {
                return Err(FromCidArgsError::UnconvertibleArgs(4));
            },
        };
        Ok((v0, v1, v2, v3, v4))
    }
}

impl<T1: CidArg, T2: CidArg, T3: CidArg, T4: CidArg, T5: CidArg, T6: CidArg> FromCidArgs for (T1, T2, T3, T4, T5, T6) {
    open spec fn arity() -> nat {
        6
    }

    open spec fn args_ok(args: Seq<Seq<char>>) -> bool {
        T1::parse_ok(args[0]) && T2::parse_ok(args[1]) && T3::parse_ok(args[2]) && T4::parse_ok(args[3]) && T5::parse_ok(args[4]) && T6::parse_ok(args[5])
    }

    open spec fn args_match(args: Seq<Seq<char>>, v: &Self) -> bool {
        T1::parses_to(args[0], &v.0) && T2::parses_to(args[1], &v.1) && T3::parses_to(args[2], &v.2) && T4::parses_to(args[3], &v.3) && T5::parses_to(args[4], &v.4) && T6::parses_to(args[5], &v.5)
    }

    fn from_args(args: &Vec<String>) -> (r: Result<Self, FromCidArgsError>) {
        if args.len() < 6 {
            return Err(FromCidArgsError::RequiredCustomIdArgMissing(6 - args.len()));
        }
        if args.len() > 6 {
            return Err(FromCidArgsError::ExtraCustomIdArgs(6, args.len()));
        }
        proof {
            assert(args.deep_view()[0] == args@[0]@);
            assert(args.deep_view()[1] == args@[1]@);
            assert(args.deep_view()[2] == args@[2]@);
            assert(args.deep_view()[3] == args@[3]@);
            assert(args.deep_view()[4] == args@[4]@);
            assert(args.deep_view()[5] == args@[5]@);
        }
        let v0 = match T1::parse_arg(&args[0]) {
            Some(v) => v,
            None => {
                return Err(FromCidArgsError::UnconvertibleArgs(0));
            },
        };
        let v1 = match T2::parse_arg(&args[1]) {
            Some(v) => v,
            None => {
                return Err(FromCidArgsError::UnconvertibleArgs(1));
            },
        };
        let v2 = match T3::parse_arg(&args[2]) {
            Some(v) => v,
            None => {
                return Err(FromCidArgsError::UnconvertibleArgs(2));
            },
        };
        let v3 = match T4::parse_arg(&args[3]) {
            Some(v) => v,
            None => {
                return Err(FromCidArgsError::UnconvertibleArgs(3));
            },
        };
        let v4 = match T5::parse_arg(&args[4]) {
            Some(v) => v,
            None => {
                return Err(FromCidArgsError::UnconvertibleArgs(4));
            },
        };
        let v5 = match T6::parse_arg(&args[5]) {
            Some(v) => v,
            None => {
                return Err(FromCidArgsError::UnconvertibleArgs(5));
            },
        };
        Ok((v0, v1, v2, v3, v4, v5))
    }
}

impl<T1: CidArg, T2: CidArg, T3: CidArg, T4: CidArg, T5: CidArg, T6: CidArg, T7: CidArg> FromCidArgs for (T1, T2, T3, T4, T5, T6, T7) {
    open spec fn arity() -> nat {
        7
    }

    open spec fn args_ok(args: Seq<Seq<char>>) -> bool {
        T1::parse_ok(args[0]) && T2::parse_ok(args[1]) && T3::parse_ok(args[2]) && T4::parse_ok(args[3]) && T5::parse_ok(args[4]) && T6::parse_ok(args[5]) && T7::parse_ok(args[6])
    }

    open spec fn args_match(args: Seq<Seq<char>>, v: &Self) -> bool {
        T1::parses_to(args[0], &v.0) && T2::parses_to(args[1], &v.1) && T3::parses_to(args[2], &v.2) && T4::parses_to(args[3], &v.3) && T5::parses_to(args[4], &v.4) && T6::parses_to(args[5], &v.5) && T7::parses_to(args[6], &v.6)
    }

    fn from_args(args: &Vec<String>) -> (r: Result<Self, FromCidArgsError>) {
        if args.len() < 7 {
            return Err(FromCidArgsError::RequiredCustomIdArgMissing(7 - args.len()));
        }
        if args.len() > 7 {
            return Err(FromCidArgsError::ExtraCustomIdArgs(7, args.len()));
        }
        proof {
            assert(args.deep_view()[0] == args@[0]@);
            assert(args.deep_view()[1] == args@[1]@);
            assert(args.deep_view()[2] == args@[2]@);
            assert(args.deep_view()[3] == args@[3]@);
            assert(args.deep_view()[4] == args@[4]@);
            assert(args.deep_view()[5] == args@[5]@);
            assert(args.deep_view()[6] == args@[6]@);
        }
        let v0 = match T1::parse_arg(&args[0]) {
            Some(v) => v,
            None => {
                return Err(FromCidArgsError::UnconvertibleArgs(0));
            },
        };
        let v1 = match T2::parse_arg(&args[1]) {
            Some(v) => v,
            None => {
                return Err(FromCidArgsError::UnconvertibleArgs(1));
            },
        };
        let v2 = match T3::parse_arg(&args[2]) {
            Some(v) => v,
            None => {
                return Err(FromCidArgsError::UnconvertibleArgs(2));
            },
        };
        let v3 = match T4::parse_arg(&args[3]) {
            Some(v) => v,
            None => {
                return Err(FromCidArgsError::UnconvertibleArgs(3));
            },
        };
        let v4 = match T5::parse_arg(&args[4]) {
            Some(v) => v,
            None => {
                return Err(FromCidArgsError::UnconvertibleArgs(4));
            },
        };
        let v5 = match T6::parse_arg(&args[5]) {
            Some(v) => v,
            None => {
                return Err(FromCidArgsError::UnconvertibleArgs(5));
            },
        };
        let v6 = match T7::parse_arg(&args[6]) {
            Some(v) => v,
            None => {
                return Err(FromCidArgsError::UnconvertibleArgs(6));
            },
        };
        Ok((v0, v1, v2, v3, v4, v5, v6))
    }
}

impl<T1: CidArg, T2: CidArg, T3: CidArg, T4: CidArg, T5: CidArg, T6: CidArg, T7: CidArg, T8: CidArg> FromCidArgs for (T1, T2, T3, T4, T5, T6, T7, T8) {
    open spec fn arity() -> nat {
        8
    }

    open spec fn args_ok(args: Seq<Seq<char>>) -> bool {
        T1::parse_ok(args[0]) && T2::parse_ok(args[1]) && T3::parse_ok(args[2]) && T4::parse_ok(args[3]) && T5::parse_ok(args[4]) && T6::parse_ok(args[5]) && T7::parse_ok(args[6]) && T8::parse_ok(args[7])
    }

    open spec fn args_match(args: Seq<Seq<char>>, v: &Self) -> bool {
        T1::parses_to(args[0], &v.0) && T2::parses_to(args[1], &v.1) && T3::parses_to(args[2], &v.2) && T4::parses_to(args[3], &v.3) && T5::parses_to(args[4], &v.4) && T6::parses_to(args[5], &v.5) && T7::parses_to(args[6], &v.6) && T8::parses_to(args[7], &v.7)
    }

    fn from_args(args: &Vec<String>) -> (r: Result<Self, FromCidArgsError>) {
        if args.len() < 8 {
            return Err(FromCidArgsError::RequiredCustomIdArgMissing(8 - args.len()));
        }
        if args.len() > 8 {
            return Err(FromCidArgsError::ExtraCustomIdArgs(8, args.len()));
        }
        proof {
            assert(args.deep_view()[0] == args@[0]@);
            assert(args.deep_view()[1] == args@[1]@);
            assert(args.deep_view()[2] == args@[2]@);
            assert(args.deep_view()[3] == args@[3]@);
            assert(args.deep_view()[4] == args@[4]@);
            assert(args.deep_view()[5] == args@[5]@);
            assert(args.deep_view()[6] == args@[6]@);
            assert(args.deep_view()[7] == args@[7]@);
        }
        let v0 = match T1::parse_arg(&args[0]) {
            Some(v) => v,
            None => {
                return Err(FromCidArgsError::UnconvertibleArgs(0));
            },
        };
        let v1 = match T2::parse_arg(&args[1]) {
            Some(v) => v,
            None => {
                return Err(FromCidArgsError::UnconvertibleArgs(1));
            },
        };
        let v2 = match T3::parse_arg(&args[2]) {
            Some(v) => v,
            None => {
                return Err(FromCidArgsError::UnconvertibleArgs(2));
            },
        };
        let v3 = match T4::parse_arg(&args[3]) {
            Some(v) => v,
            None => {
                return Err(FromCidArgsError::UnconvertibleArgs(3));
            },
        };
        let v4 = match T5::parse_arg(&args[4]) {
            Some(v) => v,
            None => {
                return Err(FromCidArgsError::UnconvertibleArgs(4));
            },
        };
        let v5 = match T6::parse_arg(&args[5]) {
            Some(v) => v,
            None => {
                return Err(FromCidArgsError::UnconvertibleArgs(5));
            },
        };
        let v6 = match T7::parse_arg(&args[6]) {
            Some(v) => v,
            None => {
                return Err(FromCidArgsError::UnconvertibleArgs(6));
            },
        };
        let v7 = match T8::parse_arg(&args[7]) {
            Some(v) => v,
            None => {
                return Err(FromCidArgsError::UnconvertibleArgs(7));
            },
        };
        Ok((v0, v1, v2, v3, v4, v5, v6, v7))
    }
}

impl<T1: CidArg, T2: CidArg, T3: CidArg, T4: CidArg, T5: CidArg, T6: CidArg, T7: CidArg, T8: CidArg, T9: CidArg> FromCidArgs for (T1, T2, T3, T4, T5, T6, T7, T8, T9) {
    open spec fn arity() -> nat {
        9
    }

    open spec fn args_ok(args: Seq<Seq<char>>) -> bool {
        T1::parse_ok(args[0]) && T2::parse_ok(args[1]) && T3::parse_ok(args[2]) && T4::parse_ok(args[3]) && T5::parse_ok(args[4]) && T6::parse_ok(args[5]) && T7::parse_ok(args[6]) && T8::parse_ok(args[7]) && T9::parse_ok(args[8])
    }

    open spec fn args_match(args: Seq<Seq<char>>, v: &Self) -> bool {
        T1::parses_to(args[0], &v.0) && T2::parses_to(args[1], &v.1) && T3::parses_to(args[2], &v.2) && T4::parses_to(args[3], &v.3) && T5::parses_to(args[4], &v.4) && T6::parses_to(args[5], &v.5) && T7::parses_to(args[6], &v.6) && T8::parses_to(args[7], &v.7) && T9::parses_to(args[8], &v.8)
    }

    fn from_args(args: &Vec<String>) -> (r: Result<Self, FromCidArgsError>) {
        if args.len() < 9 {
            return Err(FromCidArgsError::RequiredCustomIdArgMissing(9 - args.len()));
        }
        if args.len() > 9 {
            return Err(FromCidArgsError::ExtraCustomIdArgs(9, args.len()));
        }
        proof {
            assert(args.deep_view()[0] == args@[0]@);
            assert(args.deep_view()[1] == args@[1]@);
            assert(args.deep_view()[2] == args@[2]@);
            assert(args.deep_view()[3] == args@[3]@);
            assert(args.deep_view()[4] == args@[4]@);
            assert(args.deep_view()[5] == args@[5]@);
            assert(args.deep_view()[6] == args@[6]@);
            assert(args.deep_view()[7] == args@[7]@);
            assert(args.deep_view()[8] == args@[8]@);
        }
        let v0 = match T1::parse_arg(&args[0]) {
            Some(v) => v,
            None => {
                return Err(FromCidArgsError::UnconvertibleArgs(0));
            },
        };
        let v1 = match T2::parse_arg(&args[1]) {
            Some(v) => v,
            None => {
                return Err(FromCidArgsError::UnconvertibleArgs(1));
            },
        };
        let v2 = match T3::parse_arg(&args[2]) {
            Some(v) => v,
            None => {
                return Err(FromCidArgsError::UnconvertibleArgs(2));
            },
        };
        let v3 = match T4::parse_arg(&args[3]) {
            Some(v) => v,
            None => {
                return Err(FromCidArgsError::UnconvertibleArgs(3));
            },
        };
        let v4 = match T5::parse_arg(&args[4]) {
            Some(v) => v,
            None => {
                return Err(FromCidArgsError::UnconvertibleArgs(4));
            },
        };
        let v5 = match T6::parse_arg(&args[5]) {
            Some(v) => v,
            None => {
                return Err(FromCidArgsError::UnconvertibleArgs(5));
            },
        };
        let v6 = match T7::parse_arg(&args[6]) {
            Some(v) => v,
            None => {
                return Err(FromCidArgsError::UnconvertibleArgs(6));
            },
        };
        let v7 = match T8::parse_arg(&args[7]) {
            Some(v) => v,
            None => {
                return Err(FromCidArgsError::UnconvertibleArgs(7));
            },
        };
        let v8 = match T9::parse_arg(&args[8]) {
            Some(v) => v,
            None => {
                return Err(FromCidArgsError::UnconvertibleArgs(8));
            },
        };
        Ok((v0, v1, v2, v3, v4, v5, v6, v7, v8))
    }
}

impl<T1: CidArg, T2: CidArg, T3: CidArg, T4: CidArg, T5: CidArg, T6: CidArg, T7: CidArg, T8: CidArg, T9: CidArg, T10: CidArg> FromCidArgs for (T1, T2, T3, T4, T5, T6, T7, T8, T9, T10) {
    open spec fn arity() -> nat {
        10
    }

    open spec fn args_ok(args: Seq<Seq<char>>) -> bool {
        T1::parse_ok(args[0]) && T2::parse_ok(args[1]) && T3::parse_ok(args[2]) && T4::parse_ok(args[3]) && T5::parse_ok(args[4]) && T6::parse_ok(args[5]) && T7::parse_ok(args[6]) && T8::parse_ok(args[7]) && T9::parse_ok(args[8]) && T10::parse_ok(args[9])
    }

    open spec fn args_match(args: Seq<Seq<char>>, v: &Self) -> bool {
        T1::parses_to(args[0], &v.0) && T2::parses_to(args[1], &v.1) && T3::parses_to(args[2], &v.2) && T4::parses_to(args[3], &v.3) && T5::parses_to(args[4], &v.4) && T6::parses_to(args[5], &v.5) && T7::parses_to(args[6], &v.6) && T8::parses_to(args[7], &v.7) && T9::parses_to(args[8], &v.8) && T10::parses_to(args[9], &v.9)
    }

    fn from_args(args: &Vec<String>) -> (r: Result<Self, FromCidArgsError>) {
        if args.len() < 10 {
            return Err(FromCidArgsError::RequiredCustomIdArgMissing(10 - args.len()));
        }
        if args.len() > 10 {
            return Err(FromCidArgsError::ExtraCustomIdArgs(10, args.len()));
        }
        proof {
            assert(args.deep_view()[0] == args@[0]@);
            assert(args.deep_view()[1] == args@[1]@);
            assert(args.deep_view()[2] == args@[2]@);
            assert(args.deep_view()[3] == args@[3]@);
            assert(args.deep_view()[4] == args@[4]@);
            assert(args.deep_view()[5] == args@[5]@);
            assert(args.deep_view()[6] == args@[6]@);
            assert(args.deep_view()[7] == args@[7]@);
            assert(args.deep_view()[8] == args@[8]@);
            assert(args.deep_view()[9] == args@[9]@);
        }
        let v0 = match T1::parse_arg(&args[0]) {
            Some(v) => v,
            None => {
                return Err(FromCidArgsError::UnconvertibleArgs(0));
            },
        };
        let v1 = match T2::parse_arg(&args[1]) {
            Some(v) => v,
            None => {
                return Err(FromCidArgsError::UnconvertibleArgs(1));
            },
        };
        let v2 = match T3::parse_arg(&args[2]) {
            Some(v) => v,
            None => {
                return Err(FromCidArgsError::UnconvertibleArgs(2));
            },
        };
        let v3 = match T4::parse_arg(&args[3]) {
            Some(v) => v,
            None => {
                return Err(FromCidArgsError::UnconvertibleArgs(3));
            },
        };
        let v4 = match T5::parse_arg(&args[4]) {
            Some(v) => v,
            None => {
                return Err(FromCidArgsError::UnconvertibleArgs(4));
            },
        };
        let v5 = match T6::parse_arg(&args[5]) {
            Some(v) => v,
            None => {
                return Err(FromCidArgsError::UnconvertibleArgs(5));
            },
        };
        let v6 = match T7::parse_arg(&args[6]) {
            Some(v) => v,
            None => {
                return Err(FromCidArgsError::UnconvertibleArgs(6));
            },
        };
        let v7 = match T8::parse_arg(&args[7]) {
            Some(v) => v,
            None => {
                return Err(FromCidArgsError::UnconvertibleArgs(7));
            },
        };
        let v8 = match T9::parse_arg(&args[8]) {
            Some(v) => v,
            None => {
                return Err(FromCidArgsError::UnconvertibleArgs(8));
            },
        };
        let v9 = match T10::parse_arg(&args[9]) {
            Some(v) => v,
            None => {
                return Err(FromCidArgsError::UnconvertibleArgs(9));
            },
        };
        Ok((v0, v1, v2, v3, v4, v5, v6, v7, v8, v9))
    }
}

} // verus!
