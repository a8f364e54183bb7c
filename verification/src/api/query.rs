//! Request paths of the API: resource paths and query strings.

use crate::codec::{form_byte, form_bytes, form_encoded, form_unreserved, hex_upper, form_pair_text, form_query, form_query_text, pair_views};
use vstd::utf8::encode_utf8;
use crate::text::{decimal, i64_to_decimal, int_decimal, join, join_seq, owned, u64_to_decimal, views};
use vstd::prelude::*;

verus! {

/// `key=value`.
pub open spec fn param(key: Seq<char>, value: Seq<char>) -> Seq<char> {
    key + "="@ + value
}

/// `base`, followed by `?` and the parameters joined with `&` when there are any.
pub open spec fn query_text(base: Seq<char>, params: Seq<Seq<char>>) -> Seq<char> {
    if params.len() == 0 {
        base
    } else {
        base + "?"@ + join_seq(params, "&"@)
    }
}

/// The view of an optional string slice.
pub open spec fn opt_view(o: Option<&str>) -> Option<Seq<char>> {
    match o {
        Some(s) => Some(s@),
        None => None,
    }
}

/// A parameter when its value is present, nothing otherwise.
pub open spec fn opt_param(key: Seq<char>, value: Option<Seq<char>>) -> Seq<Seq<char>> {
    match value {
        Some(v) => seq![param(key, v)],
        None => Seq::empty(),
    }
}

/// The text `true` or `false`.
pub open spec fn bool_text(b: bool) -> Seq<char> {
    if b { "true"@ } else { "false"@ }
}

/// Append `?` and the parameters joined with `&` to `base`, when there are parameters.
pub fn with_query(base: &str, params: &Vec<String>) -> (r: String)
    ensures
        r@ == query_text(base@, views(params@)),
{
    let mut r = owned(base);
    if params.len() != 0 {
        r.append("?");
        let q = join(params, "&");
        r.append(q.as_str());
    }
    r
}

fn make_param(key: &str, value: &str) -> (r: String)
    ensures
        r@ == param(key@, value@),
{
    let mut r = owned(key);
    r.append("=");
    r.append(value);
    r
}

fn push_opt_str(params: &mut Vec<String>, key: &str, value: Option<&str>)
    ensures
        views(final(params)@) == views(old(params)@) + opt_param(key@, opt_view(value)),
{
    match value {
        Some(v) => {
            params.push(make_param(key, v));
            assert(views(params@) =~= views(old(params)@) + opt_param(key@, opt_view(value)));
        },
        None => {
            assert(views(params@) =~= views(old(params)@) + opt_param(key@, opt_view(value)));
        },
    }
}

fn push_opt_text(params: &mut Vec<String>, key: &str, value: Option<String>)
    ensures
        views(final(params)@) == views(old(params)@) + opt_param(
            key@,
            match value {
                Some(v) => Some(v@),
                None => None,
            },
        ),
{
    match value {
        Some(v) => {
            params.push(make_param(key, v.as_str()));
            assert(views(params@) =~= views(old(params)@) + seq![param(key@, v@)]);
        },
        None => {
            assert(views(params@) =~= views(old(params)@));
        },
    }
}

/// Parameters `per_page` and `cursor`, each when given.
pub open spec fn paging_params(per_page: Option<u32>, cursor: Option<Seq<char>>) -> Seq<Seq<char>> {
    opt_param("per_page"@, match per_page {
        Some(n) => Some(decimal(n as nat)),
        None => None,
    }) + opt_param("cursor"@, cursor)
}

/// The path of one page of a listing: `base?per_page=..&cursor=..` with the given parts.
pub fn paginated_path(base: &str, per_page: Option<u32>, cursor: Option<&str>) -> (r: String)
    ensures
        r@ == query_text(base@, paging_params(per_page, opt_view(cursor))),
{
    let mut params: Vec<String> = Vec::new();
    assert(views(params@) =~= Seq::empty());
    let pp = match per_page {
        Some(n) => Some(u64_to_decimal(n as u64)),
        None => None,
    };
    push_opt_text(&mut params, "per_page", pp);
    push_opt_str(&mut params, "cursor", cursor);
    with_query(base, &params)
}

/// Parameters of the database plan listing.
pub open spec fn database_plan_params(engine: Option<Seq<char>>, nodes: Option<i32>, region: Option<Seq<char>>) -> Seq<Seq<char>> {
    opt_param("engine"@, engine) + opt_param("nodes"@, match nodes {
        Some(n) => Some(int_decimal(n as int)),
        None => None,
    }) + opt_param("region"@, region)
}

/// The path that lists database plans, filtered by the given parts.
pub fn database_plans_path(engine: Option<&str>, nodes: Option<i32>, region: Option<&str>) -> (r: String)
    ensures
        r@ == query_text("/databases/plans"@, database_plan_params(opt_view(engine), nodes, opt_view(region))),
{
    let mut params: Vec<String> = Vec::new();
    assert(views(params@) =~= Seq::empty());
    push_opt_str(&mut params, "engine", engine);
    let n = match nodes {
        Some(n) => Some(i64_to_decimal(n as i64)),
        None => None,
    };
    push_opt_text(&mut params, "nodes", n);
    push_opt_str(&mut params, "region", region);
    assert(views(params@) =~= database_plan_params(opt_view(engine), nodes, opt_view(region)));
    with_query("/databases/plans", &params)
}

pub(crate) fn bool_string(b: bool) -> (r: String)
    ensures
        r@ == bool_text(b),
{
    if b { owned("true") } else { owned("false") }
}

/// Parameters of a registry credential request.
pub open spec fn credential_params(expiry_seconds: Option<i64>, read_write: Option<bool>) -> Seq<Seq<char>> {
    opt_param("expiry_seconds"@, match expiry_seconds {
        Some(e) => Some(int_decimal(e as int)),
        None => None,
    }) + opt_param("read_write"@, match read_write {
        Some(b) => Some(bool_text(b)),
        None => None,
    })
}

/// `/registry/{id}/docker-credentials` with the given parameters.
pub fn docker_credentials_path(registry_id: &str, expiry_seconds: Option<i64>, read_write: Option<bool>) -> (r: String)
    ensures
        r@ == query_text(
            "/registry/"@ + registry_id@ + "/docker-credentials"@,
            credential_params(expiry_seconds, read_write),
        ),
{
    let mut base = owned("/registry/");
    base.append(registry_id);
    base.append("/docker-credentials");
    let mut params: Vec<String> = Vec::new();
    assert(views(params@) =~= Seq::empty());
    let e = match expiry_seconds {
        Some(e) => Some(i64_to_decimal(e)),
        None => None,
    };
    push_opt_text(&mut params, "expiry_seconds", e);
    let rw = match read_write {
        Some(b) => Some(bool_string(b)),
        None => None,
    };
    push_opt_text(&mut params, "read_write", rw);
    with_query(base.as_str(), &params)
}

/// `/registry/{id}/docker-credentials/kubernetes` with the given parameters.
pub fn kubernetes_credentials_path(
    registry_id: &str,
    expiry_seconds: Option<i64>,
    read_write: Option<bool>,
    base64_encode: Option<bool>,
) -> (r: String)
    ensures
        r@ == query_text(
            "/registry/"@ + registry_id@ + "/docker-credentials/kubernetes"@,
            credential_params(expiry_seconds, read_write) + opt_param("base64_encode"@, match base64_encode {
                Some(b) => Some(bool_text(b)),
                None => None,
            }),
        ),
{
    let mut base = owned("/registry/");
    base.append(registry_id);
    base.append("/docker-credentials/kubernetes");
    let mut params: Vec<String> = Vec::new();
    assert(views(params@) =~= Seq::empty());
    let e = match expiry_seconds {
        Some(e) => Some(i64_to_decimal(e)),
        None => None,
    };
    push_opt_text(&mut params, "expiry_seconds", e);
    let rw = match read_write {
        Some(b) => Some(bool_string(b)),
        None => None,
    };
    push_opt_text(&mut params, "read_write", rw);
    let b64 = match base64_encode {
        Some(b) => Some(bool_string(b)),
        None => None,
    };
    push_opt_text(&mut params, "base64_encode", b64);
    with_query(base.as_str(), &params)
}

/// The plan listing, filtered by type when one is given.
pub fn plans_path(plan_type: Option<&str>) -> (r: String)
    ensures
        r@ == match plan_type {
            Some(t) => "/plans?type="@ + t@,
            None => "/plans"@,
        },
{
    match plan_type {
        Some(t) => {
            let mut r = owned("/plans?type=");
            r.append(t);
            r
        },
        None => owned("/plans"),
    }
}

/// `/seg1/seg2/...`: a slash before each segment.
pub open spec fn path_text(segments: Seq<Seq<char>>) -> Seq<char>
    decreases segments.len(),
{
    if segments.len() == 0 {
        Seq::empty()
    } else {
        path_text(segments.drop_last()) + "/"@ + segments.last()
    }
}

/// The views of a vector of string slices.
pub open spec fn str_views(v: Seq<&str>) -> Seq<Seq<char>> {
    v.map_values(|s: &str| s@)
}

/// The path made of the given segments, each preceded by a slash.
pub fn resource_path(segments: &Vec<&str>) -> (r: String)
    ensures
        r@ == path_text(str_views(segments@)),
{
    let mut r = String::new();
    let ghost vs = str_views(segments@);
    let mut i: usize = 0;
    while i < segments.len()
        invariant
            vs == str_views(segments@),
            i <= segments.len(),
            r@ == path_text(vs.take(i as int)),
        decreases segments.len() - i,
    {
        r.append("/");
        r.append(segments[i]);
        assert(vs.take(i + 1).drop_last() =~= vs.take(i as int));
        i = i + 1;
    }
    assert(vs.take(segments.len() as int) =~= vs);
    r
}

/// A name/value pair when its value is present, nothing otherwise.
pub open spec fn opt_pair(key: Seq<char>, value: Option<Seq<char>>) -> Seq<(Seq<char>, Seq<char>)> {
    match value {
        Some(v) => seq![(key, v)],
        None => Seq::empty(),
    }
}

/// The pairs of a log query, in the order of the parameters.
pub open spec fn log_pairs(
    start_time: Option<Seq<char>>,
    end_time: Option<Seq<char>>,
    log_level: Option<Seq<char>>,
    resource_type: Option<Seq<char>>,
    resource_id: Option<Seq<char>>,
    continue_time: Option<Seq<char>>,
) -> Seq<(Seq<char>, Seq<char>)> {
    opt_pair("start_time"@, start_time) + opt_pair("end_time"@, end_time) + opt_pair("log_level"@, log_level)
        + opt_pair("resource_type"@, resource_type) + opt_pair("resource_id"@, resource_id) + opt_pair(
        "continue_time"@,
        continue_time,
    )
}

/// A path with the serialized query, unless it is empty.
pub open spec fn with_form_query(base: Seq<char>, query: Seq<char>) -> Seq<char> {
    if query.len() == 0 {
        base
    } else {
        base + seq!['?'] + query
    }
}

proof fn lemma_query_nonempty(pairs: Seq<(Seq<char>, Seq<char>)>)
    requires
        pairs.len() > 0,
    ensures
        form_query_text(pairs).len() > 0,
{
    if pairs.len() == 1 {
        assert(form_pair_text(pairs[0]).len() > 0);
    }
}

fn push_pair(pairs: &mut Vec<(String, String)>, key: &str, value: Option<&str>)
    ensures
        pair_views(final(pairs)@) == pair_views(old(pairs)@) + opt_pair(key@, opt_view(value)),
{
    match value {
        Some(v) => {
            pairs.push((owned(key), owned(v)));
            assert(pair_views(pairs@) =~= pair_views(old(pairs)@) + opt_pair(key@, opt_view(value)));
        },
        None => {
            assert(pair_views(pairs@) =~= pair_views(old(pairs)@) + opt_pair(key@, opt_view(value)));
        },
    }
}

/// The log listing path: `/logs`, followed by `?` and the form-serialized filters that are
/// given, in the order of the parameters, when any is.
pub fn logs_path(
    start_time: Option<&str>,
    end_time: Option<&str>,
    log_level: Option<&str>,
    resource_type: Option<&str>,
    resource_id: Option<&str>,
    continue_time: Option<&str>,
) -> (r: String)
    ensures
        r@ == with_form_query(
            "/logs"@,
            form_query_text(
                log_pairs(
                    opt_view(start_time),
                    opt_view(end_time),
                    opt_view(log_level),
                    opt_view(resource_type),
                    opt_view(resource_id),
                    opt_view(continue_time),
                ),
            ),
        ),
        r@ == "/logs"@ <==> log_pairs(
            opt_view(start_time),
            opt_view(end_time),
            opt_view(log_level),
            opt_view(resource_type),
            opt_view(resource_id),
            opt_view(continue_time),
        ).len() == 0,
{
    let mut pairs: Vec<(String, String)> = Vec::new();
    assert(pair_views(pairs@) =~= Seq::empty());
    push_pair(&mut pairs, "start_time", start_time);
    push_pair(&mut pairs, "end_time", end_time);
    push_pair(&mut pairs, "log_level", log_level);
    push_pair(&mut pairs, "resource_type", resource_type);
    push_pair(&mut pairs, "resource_id", resource_id);
    push_pair(&mut pairs, "continue_time", continue_time);
    let ghost lp = log_pairs(
        opt_view(start_time),
        opt_view(end_time),
        opt_view(log_level),
        opt_view(resource_type),
        opt_view(resource_id),
        opt_view(continue_time),
    );
    assert(pair_views(pairs@) =~= lp);
    let query = form_query(&pairs);
    proof {
        if lp.len() > 0 {
            lemma_query_nonempty(lp);
        }
    }
    if query.as_str().is_empty() {
        owned("/logs")
    } else {
        let mut path = owned("/logs?");
        path.append(query.as_str());
        proof {
            reveal_strlit("/logs?");
            reveal_strlit("/logs");
            assert(path@ =~= "/logs"@ + seq!['?'] + query@);
            assert(path@.len() > "/logs"@.len());
        }
        path
    }
}

/// No character of `s` is `c`.
spec fn free_of(s: Seq<char>, c: char) -> bool {
    forall|i: int| 0 <= i < s.len() ==> #[trigger] s[i] != c
}

proof fn lemma_hex_upper(d: int, e: int)
    requires
        0 <= d < 16,
        0 <= e < 16,
    ensures
        hex_upper(d) != '&' && hex_upper(d) != '=' && hex_upper(d) != '%',
        hex_upper(d) == hex_upper(e) ==> d == e,
{
    assert((hex_upper(d) as u32) == (if d < 10 { 48 + d } else { 55 + d }));
    assert((hex_upper(e) as u32) == (if e < 10 { 48 + e } else { 55 + e }));
}

proof fn lemma_form_byte(b: u8)
    ensures
        form_byte(b).len() == (if form_unreserved(b) || b == 0x20 { 1int } else { 3int }),
        (form_byte(b)[0] == '%') <==> form_byte(b).len() == 3,
        free_of(form_byte(b), '&'),
        free_of(form_byte(b), '='),
{
    lemma_hex_upper(b as int / 16, 0);
    lemma_hex_upper(b as int % 16, 0);
    assert((b as char) as u32 == b as u32);
}

proof fn lemma_form_byte_injective(a: u8, b: u8)
    requires
        form_byte(a) == form_byte(b),
    ensures
        a == b,
{
    lemma_form_byte(a);
    lemma_form_byte(b);
    assert((a as char) as u32 == a as u32);
    assert((b as char) as u32 == b as u32);
    assert(form_byte(a)[0] == form_byte(b)[0]);
    if form_byte(a).len() == 3 {
        assert(form_byte(a)[1] == form_byte(b)[1]);
        assert(form_byte(a)[2] == form_byte(b)[2]);
        lemma_hex_upper(a as int / 16, b as int / 16);
        lemma_hex_upper(a as int % 16, b as int % 16);
    }
}

proof fn lemma_form_bytes_free(bytes: Seq<u8>)
    ensures
        free_of(form_bytes(bytes), '&'),
        free_of(form_bytes(bytes), '='),
    decreases bytes.len(),
{
    if bytes.len() > 0 {
        lemma_form_byte(bytes[0]);
        lemma_form_bytes_free(bytes.drop_first());
        let t = form_bytes(bytes);
        let h = form_byte(bytes[0]);
        let r = form_bytes(bytes.drop_first());
        assert(t == h + r);
        assert forall|i: int| 0 <= i < t.len() implies #[trigger] t[i] != '&' && t[i] != '=' by {
            if i < h.len() {
                assert(t[i] == h[i]);
            } else {
                assert(t[i] == r[i - h.len()]);
            }
        }
    }
}

#[verifier::spinoff_prover]
proof fn lemma_form_bytes_injective(a: Seq<u8>, b: Seq<u8>)
    requires
        form_bytes(a) == form_bytes(b),
    ensures
        a == b,
    decreases a.len(),
{
    if a.len() == 0 {
        if b.len() > 0 {
            lemma_form_byte(b[0]);
            assert(form_bytes(b) == form_byte(b[0]) + form_bytes(b.drop_first()));
            assert(form_bytes(b).len() > 0);
        }
        assert(a =~= b);
    } else if b.len() == 0 {
        lemma_form_byte(a[0]);
        assert(form_bytes(a) == form_byte(a[0]) + form_bytes(a.drop_first()));
        assert(form_bytes(a).len() > 0);
    } else {
        let ha = form_byte(a[0]);
        let hb = form_byte(b[0]);
        let t = form_bytes(a);
        lemma_form_byte(a[0]);
        lemma_form_byte(b[0]);
        assert(t == ha + form_bytes(a.drop_first()));
        assert(t == hb + form_bytes(b.drop_first()));
        assert(t[0] == ha[0]);
        assert(t[0] == hb[0]);
        assert(ha.len() == hb.len());
        assert(ha =~= t.subrange(0, ha.len() as int));
        assert(hb =~= t.subrange(0, hb.len() as int));
        lemma_form_byte_injective(a[0], b[0]);
        assert(form_bytes(a.drop_first()) =~= t.subrange(ha.len() as int, t.len() as int));
        assert(form_bytes(b.drop_first()) =~= t.subrange(hb.len() as int, t.len() as int));
        lemma_form_bytes_injective(a.drop_first(), b.drop_first());
        assert(a =~= seq![a[0]] + a.drop_first());
        assert(b =~= seq![b[0]] + b.drop_first());
    }
}

proof fn lemma_form_encoded(x: Seq<char>, y: Seq<char>)
    ensures
        free_of(form_encoded(x), '&'),
        free_of(form_encoded(x), '='),
        form_encoded(x) == form_encoded(y) ==> x == y,
{
    lemma_form_bytes_free(encode_utf8(x));
    if form_encoded(x) == form_encoded(y) {
        lemma_form_bytes_injective(encode_utf8(x), encode_utf8(y));
        vstd::utf8::encode_utf8_decode_utf8(x);
        vstd::utf8::encode_utf8_decode_utf8(y);
    }
}

/// Splitting at the first `c`: the parts before it are free of `c`.
proof fn lemma_split_first(a: Seq<char>, b: Seq<char>, a2: Seq<char>, b2: Seq<char>, c: char)
    requires
        a + seq![c] + b == a2 + seq![c] + b2,
        free_of(a, c),
        free_of(a2, c),
    ensures
        a == a2,
        b == b2,
{
    let t = a + seq![c] + b;
    if a.len() < a2.len() {
        assert(t[a.len() as int] == c);
        assert(t[a.len() as int] == a2[a.len() as int]);
    } else if a2.len() < a.len() {
        assert(t[a2.len() as int] == c);
        assert(t[a2.len() as int] == a[a2.len() as int]);
    }
    assert(a =~= t.subrange(0, a.len() as int));
    assert(a2 =~= t.subrange(0, a2.len() as int));
    assert(b =~= t.subrange(a.len() as int + 1, t.len() as int));
    assert(b2 =~= t.subrange(a2.len() as int + 1, t.len() as int));
}

/// Splitting at the last `c`: the parts after it are free of `c`.
proof fn lemma_split_last(a: Seq<char>, b: Seq<char>, a2: Seq<char>, b2: Seq<char>, c: char)
    requires
        a + seq![c] + b == a2 + seq![c] + b2,
        free_of(b, c),
        free_of(b2, c),
    ensures
        a == a2,
        b == b2,
{
    let t = a + seq![c] + b;
    let t2 = a2 + seq![c] + b2;
    assert(t.len() == a.len() + 1 + b.len());
    assert(t2.len() == a2.len() + 1 + b2.len());
    assert(t == t2);
    if b.len() < b2.len() {
        let i = a.len() as int;
        assert(t2[i] == b2[i - a2.len() - 1]);
        assert(t[i] == c);
        assert(t[i] == b2[i - a2.len() - 1]);
    } else if b2.len() < b.len() {
        let i = a2.len() as int;
        assert(t2[i] == c);
        assert(t[i] == b[i - a.len() - 1]);
    }
    assert(a =~= t.subrange(0, a.len() as int));
    assert(a2 =~= t.subrange(0, a2.len() as int));
    assert(b =~= t.subrange(a.len() as int + 1, t.len() as int));
    assert(b2 =~= t.subrange(a2.len() as int + 1, t.len() as int));
}

proof fn lemma_pair_text(p: (Seq<char>, Seq<char>), q: (Seq<char>, Seq<char>))
    ensures
        free_of(form_pair_text(p), '&'),
        form_pair_text(p).len() > 0,
        form_pair_text(p) == form_pair_text(q) ==> p == q,
{
    lemma_form_encoded(p.0, q.0);
    lemma_form_encoded(p.1, q.1);
    let t = form_pair_text(p);
    let e0 = form_encoded(p.0);
    assert forall|i: int| 0 <= i < t.len() implies #[trigger] t[i] != '&' by {
        if i < e0.len() {
            assert(t[i] == e0[i]);
        } else if i > e0.len() {
            assert(t[i] == form_encoded(p.1)[i - e0.len() - 1]);
        }
    }
    assert(t[e0.len() as int] == '=');
    if form_pair_text(p) == form_pair_text(q) {
        lemma_form_encoded(q.0, q.0);
        lemma_split_first(form_encoded(p.0), form_encoded(p.1), form_encoded(q.0), form_encoded(q.1), '=');
    }
}

/// A form query loses nothing: two lists of name/value pairs that serialize to the same
/// query are the same list. So the log listing path determines its filters and their order.
#[verifier::spinoff_prover]
pub proof fn form_query_determines_pairs(p1: Seq<(Seq<char>, Seq<char>)>, p2: Seq<(Seq<char>, Seq<char>)>)
    requires
        form_query_text(p1) == form_query_text(p2),
    ensures
        p1 == p2,
    decreases p1.len() + p2.len(),
{
    let t = form_query_text(p1);
    if p1.len() == 0 || p2.len() == 0 {
        if p1.len() > 0 {
            lemma_query_nonempty(p1);
        }
        if p2.len() > 0 {
            lemma_query_nonempty(p2);
        }
        assert(p1 =~= p2);
    } else if p1.len() == 1 && p2.len() == 1 {
        lemma_pair_text(p1[0], p2[0]);
        assert(p1 =~= p2);
    } else if p1.len() == 1 {
        lemma_pair_text(p1[0], p1[0]);
        let x = form_query_text(p2.drop_last());
        assert(t == x + seq!['&'] + form_pair_text(p2.last()));
        assert(t[x.len() as int] == '&');
    } else if p2.len() == 1 {
        lemma_pair_text(p2[0], p2[0]);
        let x = form_query_text(p1.drop_last());
        assert(t == x + seq!['&'] + form_pair_text(p1.last()));
        assert(t[x.len() as int] == '&');
    } else {
        lemma_pair_text(p1.last(), p2.last());
        lemma_pair_text(p2.last(), p2.last());
        lemma_split_last(
            form_query_text(p1.drop_last()),
            form_pair_text(p1.last()),
            form_query_text(p2.drop_last()),
            form_pair_text(p2.last()),
            '&',
        );
        form_query_determines_pairs(p1.drop_last(), p2.drop_last());
        assert(p1 =~= p1.drop_last().push(p1.last()));
        assert(p2 =~= p2.drop_last().push(p2.last()));
    }
}

} // verus!
