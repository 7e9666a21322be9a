//! The delivery-options encoder: turns a [`PublishOptions`] value into the
//! wire-level header set, validating each field's encodability.
//!
//! A header set is a list of name/value pairs whose names are unique up to
//! ASCII case. Caller-supplied pass-through headers are merged first; the
//! directive headers are inserted afterwards, so a directive overwrites a
//! colliding pass-through name and never the other way around.

use vstd::prelude::*;

use crate::client::error::{OptionField, PublishFailure};
use crate::client::request::PublishOptions;
use crate::client::text::{dec_rep, u32_dec_string};

verus! {

// ---------------------------------------------------------------------------
// Character validity
// ---------------------------------------------------------------------------

/// A character acceptable in a header value: horizontal tab, or anything
/// other than the C0 control characters and DEL. Characters beyond ASCII
/// travel as UTF-8 bytes, all of which are acceptable value bytes.
pub open spec fn valid_header_value_char(c: char) -> bool {
    c == '\t' || (c as u32 >= 32 && c as u32 != 127)
}

/// Every character of `s` is acceptable in a header value.
pub open spec fn valid_header_value(s: Seq<char>) -> bool {
    forall|i: int| 0 <= i < s.len() ==> valid_header_value_char(#[trigger] s[i])
}

/// A character acceptable in a header name: the token characters of the
/// header grammar, with both letter cases accepted.
pub open spec fn valid_header_name_char(c: char) -> bool {
    ||| ('a' <= c && c <= 'z')
    ||| ('A' <= c && c <= 'Z')
    ||| ('0' <= c && c <= '9')
    ||| c == '!' || c == '#' || c == '$' || c == '%' || c == '&' || c == '\''
    ||| c == '*' || c == '+' || c == '-' || c == '.' || c == '^' || c == '_'
    ||| c == '`' || c == '|' || c == '~'
}

/// `s` is a non-empty sequence of header name characters.
pub open spec fn valid_header_name(s: Seq<char>) -> bool {
    s.len() > 0 && forall|i: int| 0 <= i < s.len() ==> valid_header_name_char(#[trigger] s[i])
}

/// Whether every character of `s` is acceptable in a header value.
pub fn is_valid_header_value(s: &str) -> (r: bool)
    ensures
        r == valid_header_value(s@),
{
    let n = s.unicode_len();
    let mut i: usize = 0;
    while i < n
        invariant
            n == s@.len(),
            i <= n,
            forall|j: int| 0 <= j < i ==> valid_header_value_char(#[trigger] s@[j]),
        decreases n - i,
    {
        let c = s.get_char(i);
        if !(c == '\t' || (c as u32 >= 32 && c as u32 != 127)) {
            assert(!valid_header_value_char(s@[i as int]));
            return false;
        }
        i += 1;
    }
    true
}

/// Whether `s` is a non-empty sequence of header name characters.
pub fn is_valid_header_name(s: &str) -> (r: bool)
    ensures
        r == valid_header_name(s@),
{
    let n = s.unicode_len();
    if n == 0 {
        return false;
    }
    let mut i: usize = 0;
    while i < n
        invariant
            n == s@.len(),
            i <= n,
            forall|j: int| 0 <= j < i ==> valid_header_name_char(#[trigger] s@[j]),
        decreases n - i,
    {
        let c = s.get_char(i);
        let ok = ('a' <= c && c <= 'z') || ('A' <= c && c <= 'Z') || ('0' <= c && c <= '9')
            || c == '!' || c == '#' || c == '$' || c == '%' || c == '&' || c == '\'' || c == '*'
            || c == '+' || c == '-' || c == '.' || c == '^' || c == '_' || c == '`' || c == '|'
            || c == '~';
        if !ok {
            assert(!valid_header_name_char(s@[i as int]));
            return false;
        }
        i += 1;
    }
    true
}

// ---------------------------------------------------------------------------
// Case-insensitive header names
// ---------------------------------------------------------------------------

/// The code of `c`, with an upper-case ASCII letter mapped to its
/// lower-case form.
pub open spec fn lower_code(c: char) -> int {
    if 65 <= c as u32 && c as u32 <= 90 {
        c as u32 + 32
    } else {
        c as u32 as int
    }
}

/// Header names are compared without regard to ASCII letter case.
pub open spec fn name_eq(a: Seq<char>, b: Seq<char>) -> bool {
    a.len() == b.len() && forall|i: int|
        0 <= i < a.len() ==> lower_code(#[trigger] a[i]) == lower_code(#[trigger] b[i])
}

/// `name_eq` carries over a shared left-hand side.
proof fn lemma_name_eq_trans(a: Seq<char>, b: Seq<char>, c: Seq<char>)
    requires
        name_eq(a, b),
        name_eq(a, c),
    ensures
        name_eq(b, c),
{
    assert forall|i: int| 0 <= i < b.len() implies lower_code(#[trigger] b[i]) == lower_code(
        #[trigger] c[i],
    ) by {
        assert(lower_code(a[i]) == lower_code(b[i]));
        assert(lower_code(a[i]) == lower_code(c[i]));
    }
}

/// Whether `a` and `b` are the same header name up to ASCII case.
pub fn header_name_eq(a: &str, b: &str) -> (r: bool)
    ensures
        r == name_eq(a@, b@),
{
    let na = a.unicode_len();
    let nb = b.unicode_len();
    if na != nb {
        return false;
    }
    let mut i: usize = 0;
    while i < na
        invariant
            na == a@.len(),
            na == b@.len(),
            i <= na,
            forall|j: int| 0 <= j < i ==> lower_code(#[trigger] a@[j]) == lower_code(
                #[trigger] b@[j],
            ),
        decreases na - i,
    {
        let ca = a.get_char(i) as u32;
        let cb = b.get_char(i) as u32;
        let la = if 65 <= ca && ca <= 90 {
            ca + 32
        } else {
            ca
        };
        let lb = if 65 <= cb && cb <= 90 {
            cb + 32
        } else {
            cb
        };
        if la != lb {
            assert(lower_code(a@[i as int]) != lower_code(b@[i as int]));
            return false;
        }
        i += 1;
    }
    true
}

// ---------------------------------------------------------------------------
// The header set and its insert
// ---------------------------------------------------------------------------

/// The view of a header list: each pair as its character sequences.
pub open spec fn header_view(hs: Seq<(String, String)>) -> Seq<(Seq<char>, Seq<char>)> {
    hs.map_values(|p: (String, String)| (p.0@, p.1@))
}

/// `hs` without the entries whose name equals `name` up to ASCII case,
/// other entries in their given order.
pub open spec fn drop_name(hs: Seq<(Seq<char>, Seq<char>)>, name: Seq<char>) -> Seq<
    (Seq<char>, Seq<char>),
>
    decreases hs.len(),
{
    if hs.len() == 0 {
        Seq::empty()
    } else {
        let rest = drop_name(hs.drop_last(), name);
        if name_eq(hs.last().0, name) {
            rest
        } else {
            rest.push(hs.last())
        }
    }
}

/// Inserting into a header set: any entry under the same name (up to ASCII
/// case) is removed, and the new pair is appended.
pub open spec fn view_insert(
    hs: Seq<(Seq<char>, Seq<char>)>,
    name: Seq<char>,
    value: Seq<char>,
) -> Seq<(Seq<char>, Seq<char>)> {
    drop_name(hs, name).push((name, value))
}

/// Whether the set carries an entry under `name`, up to ASCII case.
pub open spec fn has_header(hs: Seq<(Seq<char>, Seq<char>)>, name: Seq<char>) -> bool {
    exists|i: int| 0 <= i < hs.len() && name_eq(#[trigger] hs[i].0, name)
}

/// The value under `name` (up to ASCII case), the latest insert winning.
pub open spec fn spec_lookup(hs: Seq<(Seq<char>, Seq<char>)>, name: Seq<char>) -> Option<Seq<char>>
    decreases hs.len(),
{
    if hs.len() == 0 {
        None
    } else if name_eq(hs.last().0, name) {
        Some(hs.last().1)
    } else {
        spec_lookup(hs.drop_last(), name)
    }
}

proof fn lemma_has_push(hs: Seq<(Seq<char>, Seq<char>)>, p: (Seq<char>, Seq<char>), m: Seq<char>)
    ensures
        has_header(hs.push(p), m) == (has_header(hs, m) || name_eq(p.0, m)),
{
    if name_eq(p.0, m) {
        assert(hs.push(p)[hs.len() as int] == p);
        assert(has_header(hs.push(p), m));
    }
    if has_header(hs, m) {
        let i = choose|i: int| 0 <= i < hs.len() && name_eq(hs[i].0, m);
        assert(hs.push(p)[i] == hs[i]);
        assert(has_header(hs.push(p), m));
    }
    if has_header(hs.push(p), m) && !name_eq(p.0, m) {
        let i = choose|i: int| 0 <= i < hs.push(p).len() && name_eq(hs.push(p)[i].0, m);
        assert(i < hs.len());
        assert(hs[i] == hs.push(p)[i]);
        assert(has_header(hs, m));
    }
}

proof fn lemma_drop_name_has(hs: Seq<(Seq<char>, Seq<char>)>, n: Seq<char>, m: Seq<char>)
    ensures
        has_header(drop_name(hs, n), m) == (has_header(hs, m) && !name_eq(n, m)),
    decreases hs.len(),
{
    if hs.len() == 0 {
        assert(!has_header(drop_name(hs, n), m));
        assert(!has_header(hs, m));
    } else {
        let butlast = hs.drop_last();
        let last = hs.last();
        assert(hs =~= butlast.push(last));
        lemma_drop_name_has(butlast, n, m);
        lemma_has_push(butlast, last, m);
        if name_eq(last.0, n) {
            if name_eq(last.0, m) {
                lemma_name_eq_trans(last.0, n, m);
            }
            assert(drop_name(hs, n) == drop_name(butlast, n));
        } else {
            lemma_has_push(drop_name(butlast, n), last, m);
            if name_eq(last.0, m) && name_eq(n, m) {
                lemma_name_eq_trans(m, last.0, n);
                assert(false);
            }
        }
    }
}

/// What an insert does to membership: the inserted name is present, and
/// every other name is present exactly when it was before.
pub proof fn lemma_insert_has(
    hs: Seq<(Seq<char>, Seq<char>)>,
    n: Seq<char>,
    v: Seq<char>,
    m: Seq<char>,
)
    ensures
        has_header(view_insert(hs, n, v), m) == (name_eq(n, m) || has_header(hs, m)),
{
    lemma_drop_name_has(hs, n, m);
    lemma_has_push(drop_name(hs, n), (n, v), m);
}

/// Inserts `name: value`, removing any entry under the same name (up to
/// ASCII case) and appending the new pair.
pub fn header_insert(hs: &mut Vec<(String, String)>, name: String, value: String)
    ensures
        header_view(final(hs)@) == view_insert(header_view(old(hs)@), name@, value@),
{
    let mut out: Vec<(String, String)> = Vec::new();
    let mut i: usize = 0;
    while i < hs.len()
        invariant
            i <= hs@.len(),
            header_view(out@) == drop_name(header_view(hs@.take(i as int)), name@),
        decreases hs@.len() - i,
    {
        let ghost pre = header_view(out@);
        let keep = !header_name_eq(hs[i].0.as_str(), name.as_str());
        if keep {
            let entry = (hs[i].0.clone(), hs[i].1.clone());
            out.push(entry);
        }
        proof {
            let taken = header_view(hs@.take(i as int));
            let taken1 = header_view(hs@.take(i + 1 as int));
            assert(taken1.drop_last() =~= taken);
            assert(taken1.last() == (hs@[i as int].0@, hs@[i as int].1@));
            if keep {
                assert(header_view(out@) =~= pre.push((hs@[i as int].0@, hs@[i as int].1@)));
            }
            assert(header_view(out@) =~= drop_name(taken1, name@));
        }
        i += 1;
    }
    proof {
        assert(hs@.take(hs@.len() as int) =~= hs@);
    }
    out.push((name, value));
    proof {
        assert(header_view(out@) =~= view_insert(header_view(old(hs)@), name@, value@));
    }
    *hs = out;
}

/// Inserts `name: value` only when no entry carries `name` yet.
pub fn ensure_header(hs: &mut Vec<(String, String)>, name: String, value: String)
    ensures
        header_view(final(hs)@) == (if has_header(header_view(old(hs)@), name@) {
            header_view(old(hs)@)
        } else {
            header_view(old(hs)@).push((name@, value@))
        }),
{
    let mut i: usize = 0;
    while i < hs.len()
        invariant
            i <= hs@.len(),
            forall|j: int| 0 <= j < i ==> !name_eq(#[trigger] header_view(hs@)[j].0, name@),
        decreases hs@.len() - i,
    {
        if header_name_eq(hs[i].0.as_str(), name.as_str()) {
            assert(name_eq(header_view(hs@)[i as int].0, name@));
            assert(has_header(header_view(hs@), name@));
            return;
        }
        i += 1;
    }
    assert(!has_header(header_view(hs@), name@));
    hs.push((name, value));
    proof {
        assert(header_view(hs@) =~= header_view(old(hs)@).push((name@, value@)));
    }
}

/// The value under `name`, up to ASCII case; the latest insert wins.
pub fn lookup_header<'a>(hs: &'a Vec<(String, String)>, name: &str) -> (r: Option<&'a String>)
    ensures
        r is Some <==> spec_lookup(header_view(hs@), name@) is Some,
        r matches Some(v) ==> spec_lookup(header_view(hs@), name@) == Some(v@),
{
    let mut i: usize = hs.len();
    proof {
        assert(header_view(hs@).take(hs@.len() as int) =~= header_view(hs@));
    }
    while i > 0
        invariant
            i <= hs@.len(),
            spec_lookup(header_view(hs@), name@) == spec_lookup(
                header_view(hs@).take(i as int),
                name@,
            ),
        decreases i,
    {
        i -= 1;
        let ghost cur = header_view(hs@).take(i + 1 as int);
        proof {
            assert(cur.drop_last() =~= header_view(hs@).take(i as int));
            assert(cur.last() == (hs@[i as int].0@, hs@[i as int].1@));
        }
        if header_name_eq(hs[i].0.as_str(), name) {
            return Some(&hs[i].1);
        }
    }
    proof {
        assert(header_view(hs@).take(0) =~= Seq::<(Seq<char>, Seq<char>)>::empty());
    }
    None
}

// ---------------------------------------------------------------------------
// The encoder
// ---------------------------------------------------------------------------

/// The pass-through headers of an options value, as a view.
pub open spec fn passthrough_view(headers: Option<Vec<(String, String)>>) -> Seq<
    (Seq<char>, Seq<char>),
> {
    match headers {
        None => Seq::empty(),
        Some(hs) => header_view(hs@),
    }
}

/// Every pass-through pair carries a valid name and a valid value.
pub open spec fn passthrough_ok(hs: Seq<(Seq<char>, Seq<char>)>) -> bool {
    forall|i: int|
        0 <= i < hs.len() ==> valid_header_name(#[trigger] hs[i].0) && valid_header_value(hs[i].1)
}

proof fn lemma_not_passthrough_ok(hs: Seq<(Seq<char>, Seq<char>)>, i: int)
    requires
        0 <= i < hs.len(),
        !(valid_header_name(hs[i].0) && valid_header_value(hs[i].1)),
    ensures
        !passthrough_ok(hs),
{
}

/// The pass-through pairs merged into a fresh set, one insert per pair, in
/// their given order.
pub open spec fn merge_passthrough(hs: Seq<(Seq<char>, Seq<char>)>) -> Seq<(Seq<char>, Seq<char>)>
    decreases hs.len(),
{
    if hs.len() == 0 {
        Seq::empty()
    } else {
        view_insert(merge_passthrough(hs.drop_last()), hs.last().0, hs.last().1)
    }
}

/// The method token sent in the method directive: the override, or `POST`.
pub open spec fn spec_method_value(m: Option<String>) -> Seq<char> {
    match m {
        None => "POST"@,
        Some(s) => s@,
    }
}

/// The encoded header set of `o`, assuming every field is encodable:
/// the merged pass-through headers, then one directive header per present
/// option. The method directive is always sent; the delay directive is
/// sent only when no not-before time is set, which takes precedence.
pub open spec fn spec_header_set(o: PublishOptions) -> Seq<(Seq<char>, Seq<char>)> {
    let h0 = merge_passthrough(passthrough_view(o.headers));
    let h1 = view_insert(h0, "Upstash-Method"@, spec_method_value(o.method));
    let h2 = match o.delay {
        Some(d) => if o.not_before is None {
            view_insert(h1, "Upstash-Delay"@, dec_rep(d as nat).push('s'))
        } else {
            h1
        },
        None => h1,
    };
    let h3 = match o.not_before {
        Some(t) => view_insert(h2, "Upstash-Not-Before"@, dec_rep(t as nat)),
        None => h2,
    };
    let h4 = match o.deduplication_id {
        Some(id) => view_insert(h3, "Upstash-Deduplication-Id"@, id@),
        None => h3,
    };
    let h5 = match o.content_based_deduplication {
        Some(b) => view_insert(
            h4,
            "Upstash-Content-Based-Deduplication"@,
            if b {
                "true"@
            } else {
                "false"@
            },
        ),
        None => h4,
    };
    let h6 = match o.retries {
        Some(r) => view_insert(h5, "Upstash-Retries"@, dec_rep(r as nat)),
        None => h5,
    };
    match o.callback {
        Some(cb) => view_insert(h6, "Upstash-Callback"@, cb@),
        None => h6,
    }
}

/// What the encoder returns: the encoded set, or the first field (in the
/// order: pass-through headers, method, deduplication id, callback) whose
/// value cannot stand in a header. The numeric and boolean directives are
/// always encodable.
pub open spec fn spec_generate_headers(o: PublishOptions) -> Result<
    Seq<(Seq<char>, Seq<char>)>,
    PublishFailure,
> {
    if !passthrough_ok(passthrough_view(o.headers)) {
        Err(PublishFailure::Encoding(OptionField::Headers))
    } else if !valid_header_value(spec_method_value(o.method)) {
        Err(PublishFailure::Encoding(OptionField::Method))
    } else if o.deduplication_id matches Some(id) && !valid_header_value(id@) {
        Err(PublishFailure::Encoding(OptionField::DeduplicationId))
    } else if o.callback matches Some(cb) && !valid_header_value(cb@) {
        Err(PublishFailure::Encoding(OptionField::Callback))
    } else {
        Ok(spec_header_set(o))
    }
}

/// Encodes the delivery options as the wire-level header set, or reports
/// the first option whose value cannot stand in a header.
#[verifier::loop_isolation(false)]
pub fn generate_headers(request: PublishOptions) -> (r: Result<
    Vec<(String, String)>,
    PublishFailure,
>)
    ensures
        r is Ok <==> spec_generate_headers(request) is Ok,
        r matches Ok(hs) ==> spec_generate_headers(request) == Ok::<_, PublishFailure>(
            header_view(hs@),
        ),
        r matches Err(e) ==> spec_generate_headers(request) == Err::<
            Seq<(Seq<char>, Seq<char>)>,
            _,
        >(e),
{
    let ghost req = request;
    let PublishOptions {
        headers,
        delay,
        not_before,
        deduplication_id,
        content_based_deduplication,
        retries,
        callback,
        method,
    } = request;

    let mut hs: Vec<(String, String)> = Vec::new();
    match &headers {
        None => {
            proof {
                assert(passthrough_view(req.headers) =~= Seq::<(Seq<char>, Seq<char>)>::empty());
            }
        },
        Some(pt) => {
            let ghost ptv = passthrough_view(req.headers);
            let mut i: usize = 0;
            proof {
                assert(ptv.take(0) =~= Seq::<(Seq<char>, Seq<char>)>::empty());
                assert(header_view(hs@) =~= merge_passthrough(ptv.take(0)));
            }
            while i < pt.len()
                invariant
                    ptv == header_view(pt@),
                    i <= pt@.len(),
                    forall|j: int|
                        0 <= j < i ==> valid_header_name(#[trigger] ptv[j].0) && valid_header_value(
                            ptv[j].1,
                        ),
                    header_view(hs@) == merge_passthrough(ptv.take(i as int)),
                decreases pt@.len() - i,
            {
                assert(ptv[i as int] == (pt@[i as int].0@, pt@[i as int].1@));
                if !is_valid_header_name(pt[i].0.as_str()) || !is_valid_header_value(
                    pt[i].1.as_str(),
                ) {
                    assert(!(valid_header_name(ptv[i as int].0) && valid_header_value(
                        ptv[i as int].1,
                    )));
                    proof {
                        lemma_not_passthrough_ok(ptv, i as int);
                    }
                    return Err(PublishFailure::Encoding(OptionField::Headers));
                }
                proof {
                    assert(valid_header_name(ptv[i as int].0));
                    assert(valid_header_value(ptv[i as int].1));
                }
                let name = pt[i].0.clone();
                let value = pt[i].1.clone();
                let ghost pre = header_view(hs@);
                header_insert(&mut hs, name, value);
                proof {
                    assert(ptv.take(i + 1 as int).drop_last() =~= ptv.take(i as int));
                    assert(ptv.take(i + 1 as int).last() == ptv[i as int]);
                    assert forall|j: int| 0 <= j < i + 1 implies valid_header_name(
                        #[trigger] ptv[j].0,
                    ) && valid_header_value(ptv[j].1) by {
                        if j == i {
                            assert(valid_header_name(ptv[j].0));
                            assert(valid_header_value(ptv[j].1));
                        }
                    }
                }
                i += 1;
            }
            proof {
                assert(ptv.take(pt@.len() as int) =~= ptv);
            }
        },
    }
    let ghost h0 = merge_passthrough(passthrough_view(req.headers));
    assert(header_view(hs@) == h0);
    assert(passthrough_ok(passthrough_view(req.headers)));

    // method directive; `POST` when no override is given
    let method_value = match method {
        Some(m) => m,
        None => String::from_str("POST"),
    };
    if !is_valid_header_value(method_value.as_str()) {
        return Err(PublishFailure::Encoding(OptionField::Method));
    }
    header_insert(&mut hs, String::from_str("Upstash-Method"), method_value);
    let ghost h1 = view_insert(h0, "Upstash-Method"@, spec_method_value(req.method));
    assert(header_view(hs@) == h1);

    // delay directive; overridden by a not-before time
    if let Some(d) = delay {
        if not_before.is_none() {
            let mut v = u32_dec_string(d);
            v.append("s");
            proof {
                reveal_strlit("s");
                assert(v@ =~= dec_rep(d as nat).push('s'));
            }
            header_insert(&mut hs, String::from_str("Upstash-Delay"), v);
        }
    }
    let ghost h2 = match req.delay {
        Some(d) => if req.not_before is None {
            view_insert(h1, "Upstash-Delay"@, dec_rep(d as nat).push('s'))
        } else {
            h1
        },
        None => h1,
    };
    assert(header_view(hs@) == h2);

    // not-before directive
    if let Some(t) = not_before {
        let v = u32_dec_string(t);
        header_insert(&mut hs, String::from_str("Upstash-Not-Before"), v);
    }
    let ghost h3 = match req.not_before {
        Some(t) => view_insert(h2, "Upstash-Not-Before"@, dec_rep(t as nat)),
        None => h2,
    };
    assert(header_view(hs@) == h3);

    // deduplication id directive
    if let Some(id) = deduplication_id {
        if !is_valid_header_value(id.as_str()) {
            return Err(PublishFailure::Encoding(OptionField::DeduplicationId));
        }
        header_insert(&mut hs, String::from_str("Upstash-Deduplication-Id"), id);
    }
    let ghost h4 = match req.deduplication_id {
        Some(id) => view_insert(h3, "Upstash-Deduplication-Id"@, id@),
        None => h3,
    };
    assert(header_view(hs@) == h4);

    // content-based deduplication directive
    if let Some(b) = content_based_deduplication {
        let v = if b {
            String::from_str("true")
        } else {
            String::from_str("false")
        };
        header_insert(&mut hs, String::from_str("Upstash-Content-Based-Deduplication"), v);
    }
    let ghost h5 = match req.content_based_deduplication {
        Some(b) => view_insert(
            h4,
            "Upstash-Content-Based-Deduplication"@,
            if b {
                "true"@
            } else {
                "false"@
            },
        ),
        None => h4,
    };
    assert(header_view(hs@) == h5);

    // retries directive
    if let Some(n) = retries {
        let v = u32_dec_string(n);
        header_insert(&mut hs, String::from_str("Upstash-Retries"), v);
    }
    let ghost h6 = match req.retries {
        Some(n) => view_insert(h5, "Upstash-Retries"@, dec_rep(n as nat)),
        None => h5,
    };
    assert(header_view(hs@) == h6);

    // callback directive
    if let Some(cb) = callback {
        if !is_valid_header_value(cb.as_str()) {
            return Err(PublishFailure::Encoding(OptionField::Callback));
        }
        header_insert(&mut hs, String::from_str("Upstash-Callback"), cb);
    }
    assert(header_view(hs@) == spec_header_set(req));

    Ok(hs)
}

} // verus!

// ---------------------------------------------------------------------------
// Laws of the encoder
// ---------------------------------------------------------------------------

verus! {

/// Merging pass-through pairs neither invents nor loses a name.
pub proof fn lemma_merge_has(hs: Seq<(Seq<char>, Seq<char>)>, m: Seq<char>)
    ensures
        has_header(merge_passthrough(hs), m) == has_header(hs, m),
    decreases hs.len(),
{
    if hs.len() == 0 {
    } else {
        let butlast = hs.drop_last();
        let last = hs.last();
        assert(hs =~= butlast.push(last));
        lemma_merge_has(butlast, m);
        lemma_has_push(butlast, last, m);
        lemma_insert_has(merge_passthrough(butlast), last.0, last.1, m);
    }
}

/// An insert is read back exactly: looking the inserted name up yields
/// the inserted value.
pub proof fn lemma_lookup_insert_same(hs: Seq<(Seq<char>, Seq<char>)>, n: Seq<char>, v: Seq<char>)
    ensures
        spec_lookup(view_insert(hs, n, v), n) == Some(v),
{
    let inserted = view_insert(hs, n, v);
    assert(inserted.last() == (n, v));
}

proof fn lemma_lookup_drop_name(hs: Seq<(Seq<char>, Seq<char>)>, n: Seq<char>, m: Seq<char>)
    requires
        !name_eq(n, m),
    ensures
        spec_lookup(drop_name(hs, n), m) == spec_lookup(hs, m),
    decreases hs.len(),
{
    if hs.len() == 0 {
    } else {
        let butlast = hs.drop_last();
        let last = hs.last();
        lemma_lookup_drop_name(butlast, n, m);
        if name_eq(last.0, n) {
            if name_eq(last.0, m) {
                lemma_name_eq_trans(last.0, n, m);
                assert(false);
            }
        } else {
            let kept = drop_name(butlast, n).push(last);
            assert(kept.drop_last() =~= drop_name(butlast, n));
        }
    }
}

/// An insert under one name leaves the value read under another alone.
pub proof fn lemma_lookup_insert_other(
    hs: Seq<(Seq<char>, Seq<char>)>,
    n: Seq<char>,
    v: Seq<char>,
    m: Seq<char>,
)
    requires
        !name_eq(n, m),
    ensures
        spec_lookup(view_insert(hs, n, v), m) == spec_lookup(hs, m),
{
    let inserted = view_insert(hs, n, v);
    assert(inserted.drop_last() =~= drop_name(hs, n));
    lemma_lookup_drop_name(hs, n, m);
}

/// Law: each numeric directive is read back as exactly its encoding —
/// the retries directive as the plain decimal of the retry count, the
/// delay directive (when no not-before time overrides it) as the decimal
/// of the seconds with the `s` suffix, and the not-before directive as
/// the decimal of its timestamp.
pub proof fn lemma_directive_values_round_trip(o: PublishOptions)
    ensures
        o.retries matches Some(n) ==> spec_lookup(spec_header_set(o), "Upstash-Retries"@) == Some(
            dec_rep(n as nat),
        ),
        o.delay matches Some(d) ==> (o.not_before is None ==> spec_lookup(
            spec_header_set(o),
            "Upstash-Delay"@,
        ) == Some(dec_rep(d as nat).push('s'))),
        o.not_before matches Some(t) ==> spec_lookup(spec_header_set(o), "Upstash-Not-Before"@)
            == Some(dec_rep(t as nat)),
{
    reveal_strlit("Upstash-Method");
    reveal_strlit("Upstash-Delay");
    reveal_strlit("Upstash-Not-Before");
    reveal_strlit("Upstash-Deduplication-Id");
    reveal_strlit("Upstash-Content-Based-Deduplication");
    reveal_strlit("Upstash-Retries");
    reveal_strlit("Upstash-Callback");

    let h0 = merge_passthrough(passthrough_view(o.headers));
    let h1 = view_insert(h0, "Upstash-Method"@, spec_method_value(o.method));
    let h2 = match o.delay {
        Some(d) => if o.not_before is None {
            view_insert(h1, "Upstash-Delay"@, dec_rep(d as nat).push('s'))
        } else {
            h1
        },
        None => h1,
    };
    let h3 = match o.not_before {
        Some(t) => view_insert(h2, "Upstash-Not-Before"@, dec_rep(t as nat)),
        None => h2,
    };
    let h4 = match o.deduplication_id {
        Some(id) => view_insert(h3, "Upstash-Deduplication-Id"@, id@),
        None => h3,
    };
    let h5 = match o.content_based_deduplication {
        Some(b) => view_insert(
            h4,
            "Upstash-Content-Based-Deduplication"@,
            if b {
                "true"@
            } else {
                "false"@
            },
        ),
        None => h4,
    };
    let h6 = match o.retries {
        Some(n) => view_insert(h5, "Upstash-Retries"@, dec_rep(n as nat)),
        None => h5,
    };

    // the delay directive, inserted at the second step, survives to the end
    if o.delay is Some && o.not_before is None {
        let dv = dec_rep(o.delay->0 as nat).push('s');
        lemma_lookup_insert_same(h1, "Upstash-Delay"@, dv);
        if let Some(id) = o.deduplication_id {
            lemma_lookup_insert_other(h3, "Upstash-Deduplication-Id"@, id@, "Upstash-Delay"@);
        }
        if let Some(b) = o.content_based_deduplication {
            let bv = if b {
                "true"@
            } else {
                "false"@
            };
            lemma_lookup_insert_other(h4, "Upstash-Content-Based-Deduplication"@, bv, "Upstash-Delay"@);
        }
        if let Some(n) = o.retries {
            lemma_lookup_insert_other(h5, "Upstash-Retries"@, dec_rep(n as nat), "Upstash-Delay"@);
        }
        if let Some(cb) = o.callback {
            lemma_lookup_insert_other(h6, "Upstash-Callback"@, cb@, "Upstash-Delay"@);
        }
    }

    // the not-before directive survives the later inserts
    if let Some(t) = o.not_before {
        lemma_lookup_insert_same(h2, "Upstash-Not-Before"@, dec_rep(t as nat));
        if let Some(id) = o.deduplication_id {
            lemma_lookup_insert_other(h3, "Upstash-Deduplication-Id"@, id@, "Upstash-Not-Before"@);
        }
        if let Some(b) = o.content_based_deduplication {
            let bv = if b {
                "true"@
            } else {
                "false"@
            };
            lemma_lookup_insert_other(
                h4,
                "Upstash-Content-Based-Deduplication"@,
                bv,
                "Upstash-Not-Before"@,
            );
        }
        if let Some(n) = o.retries {
            lemma_lookup_insert_other(
                h5,
                "Upstash-Retries"@,
                dec_rep(n as nat),
                "Upstash-Not-Before"@,
            );
        }
        if let Some(cb) = o.callback {
            lemma_lookup_insert_other(h6, "Upstash-Callback"@, cb@, "Upstash-Not-Before"@);
        }
    }

    // the retries directive survives a callback insert
    if let Some(n) = o.retries {
        lemma_lookup_insert_same(h5, "Upstash-Retries"@, dec_rep(n as nat));
        if let Some(cb) = o.callback {
            lemma_lookup_insert_other(h6, "Upstash-Callback"@, cb@, "Upstash-Retries"@);
        }
    }
}

/// Law: the method directive is always sent, and it carries exactly the
/// caller's override or the default method token.
pub proof fn lemma_method_directive(o: PublishOptions)
    ensures
        spec_lookup(spec_header_set(o), "Upstash-Method"@) == Some(spec_method_value(o.method)),
{
    reveal_strlit("Upstash-Method");
    reveal_strlit("Upstash-Delay");
    reveal_strlit("Upstash-Not-Before");
    reveal_strlit("Upstash-Deduplication-Id");
    reveal_strlit("Upstash-Content-Based-Deduplication");
    reveal_strlit("Upstash-Retries");
    reveal_strlit("Upstash-Callback");

    let h0 = merge_passthrough(passthrough_view(o.headers));
    let mv = spec_method_value(o.method);
    let h1 = view_insert(h0, "Upstash-Method"@, mv);
    lemma_lookup_insert_same(h0, "Upstash-Method"@, mv);
    let h2 = match o.delay {
        Some(d) => if o.not_before is None {
            view_insert(h1, "Upstash-Delay"@, dec_rep(d as nat).push('s'))
        } else {
            h1
        },
        None => h1,
    };
    if o.delay is Some && o.not_before is None {
        let dv = dec_rep(o.delay->0 as nat).push('s');
        lemma_lookup_insert_other(h1, "Upstash-Delay"@, dv, "Upstash-Method"@);
    }
    let h3 = match o.not_before {
        Some(t) => view_insert(h2, "Upstash-Not-Before"@, dec_rep(t as nat)),
        None => h2,
    };
    if let Some(t) = o.not_before {
        lemma_lookup_insert_other(h2, "Upstash-Not-Before"@, dec_rep(t as nat), "Upstash-Method"@);
    }
    let h4 = match o.deduplication_id {
        Some(id) => view_insert(h3, "Upstash-Deduplication-Id"@, id@),
        None => h3,
    };
    if let Some(id) = o.deduplication_id {
        lemma_lookup_insert_other(h3, "Upstash-Deduplication-Id"@, id@, "Upstash-Method"@);
    }
    let h5 = match o.content_based_deduplication {
        Some(b) => view_insert(
            h4,
            "Upstash-Content-Based-Deduplication"@,
            if b {
                "true"@
            } else {
                "false"@
            },
        ),
        None => h4,
    };
    if let Some(b) = o.content_based_deduplication {
        let bv = if b {
            "true"@
        } else {
            "false"@
        };
        lemma_lookup_insert_other(h4, "Upstash-Content-Based-Deduplication"@, bv, "Upstash-Method"@);
    }
    let h6 = match o.retries {
        Some(n) => view_insert(h5, "Upstash-Retries"@, dec_rep(n as nat)),
        None => h5,
    };
    if let Some(n) = o.retries {
        lemma_lookup_insert_other(h5, "Upstash-Retries"@, dec_rep(n as nat), "Upstash-Method"@);
    }
    if let Some(cb) = o.callback {
        lemma_lookup_insert_other(h6, "Upstash-Callback"@, cb@, "Upstash-Method"@);
    }
}

/// Law: whenever a not-before time is set, the encoded header set carries
/// the not-before directive and no delay header, whether or not a delay is
/// also set — the absolute time takes precedence. (A pass-through header
/// named like the delay directive would survive, so it is excluded here.)
pub proof fn lemma_not_before_overrides_delay(o: PublishOptions)
    requires
        o.not_before is Some,
        !has_header(passthrough_view(o.headers), "Upstash-Delay"@),
    ensures
        has_header(spec_header_set(o), "Upstash-Not-Before"@),
        !has_header(spec_header_set(o), "Upstash-Delay"@),
{
    reveal_strlit("Upstash-Method");
    reveal_strlit("Upstash-Delay");
    reveal_strlit("Upstash-Not-Before");
    reveal_strlit("Upstash-Deduplication-Id");
    reveal_strlit("Upstash-Content-Based-Deduplication");
    reveal_strlit("Upstash-Retries");
    reveal_strlit("Upstash-Callback");

    let h0 = merge_passthrough(passthrough_view(o.headers));
    lemma_merge_has(passthrough_view(o.headers), "Upstash-Delay"@);

    let mv = spec_method_value(o.method);
    let h1 = view_insert(h0, "Upstash-Method"@, mv);
    lemma_insert_has(h0, "Upstash-Method"@, mv, "Upstash-Delay"@);

    // a set not-before time suppresses the delay directive
    let h2 = h1;
    assert(h2 == (match o.delay {
        Some(d) => if o.not_before is None {
            view_insert(h1, "Upstash-Delay"@, dec_rep(d as nat).push('s'))
        } else {
            h1
        },
        None => h1,
    }));

    if let Some(t) = o.not_before {
        let nb = dec_rep(t as nat);
        let h3 = view_insert(h2, "Upstash-Not-Before"@, nb);
        lemma_insert_has(h2, "Upstash-Not-Before"@, nb, "Upstash-Delay"@);
        lemma_insert_has(h2, "Upstash-Not-Before"@, nb, "Upstash-Not-Before"@);

        let h4 = match o.deduplication_id {
            Some(id) => view_insert(h3, "Upstash-Deduplication-Id"@, id@),
            None => h3,
        };
        if let Some(id) = o.deduplication_id {
            lemma_insert_has(h3, "Upstash-Deduplication-Id"@, id@, "Upstash-Delay"@);
            lemma_insert_has(h3, "Upstash-Deduplication-Id"@, id@, "Upstash-Not-Before"@);
        }

        let h5 = match o.content_based_deduplication {
            Some(b) => view_insert(
                h4,
                "Upstash-Content-Based-Deduplication"@,
                if b {
                    "true"@
                } else {
                    "false"@
                },
            ),
            None => h4,
        };
        if let Some(b) = o.content_based_deduplication {
            let bv = if b {
                "true"@
            } else {
                "false"@
            };
            lemma_insert_has(h4, "Upstash-Content-Based-Deduplication"@, bv, "Upstash-Delay"@);
            lemma_insert_has(h4, "Upstash-Content-Based-Deduplication"@, bv, "Upstash-Not-Before"@);
        }

        let h6 = match o.retries {
            Some(n) => view_insert(h5, "Upstash-Retries"@, dec_rep(n as nat)),
            None => h5,
        };
        if let Some(n) = o.retries {
            lemma_insert_has(h5, "Upstash-Retries"@, dec_rep(n as nat), "Upstash-Delay"@);
            lemma_insert_has(h5, "Upstash-Retries"@, dec_rep(n as nat), "Upstash-Not-Before"@);
        }

        if let Some(cb) = o.callback {
            lemma_insert_has(h6, "Upstash-Callback"@, cb@, "Upstash-Delay"@);
            lemma_insert_has(h6, "Upstash-Callback"@, cb@, "Upstash-Not-Before"@);
        }
    }
}

} // verus!
