//! What holds of the service as a whole, whatever the store and the requests.
//!
//! Each law speaks of [`respond`] on the service's own route table: the store
//! afterwards and the response that [`Service::call`](crate::service::Service)
//! gives.

use crate::auth::bearer_value;
use crate::http::{RequestView, ResponseView, StatusCode};
use crate::logger::{log_line, Logger};
use crate::path::{
    free_of, lemma_split_concat, lemma_split_len, lemma_split_many, lemma_split_plain, segments,
    split, SEPARATOR,
};
use crate::pattern::{bindings, pattern_matches, segment_matches, PathParamView, SegmentView};
use crate::routing::{
    authorized, is_first_match, lemma_first_match_is, lemma_no_match, resolve, route_bind,
    BodyLimit, Endpoint, Handler, ResolvedView, RouteView, Router,
};
use crate::routes::{table, ADMIN_TOKEN};
use crate::service::{bytes_response, key_param, respond, ExchangeView, Service};
use crate::store::StoreView;
use vstd::prelude::*;

verus! {

/// Whether `key` can stand as one segment of a path: it is not empty and
/// holds no slash.
pub open spec fn is_key(key: Seq<char>) -> bool {
    key.len() > 0 && free_of(key, SEPARATOR)
}

/// The path under which the value at `key` is read and written.
pub open spec fn kv_path(key: Seq<char>) -> Seq<char> {
    "/kv/"@ + key
}

/// The path under which `key` is removed.
pub open spec fn admin_kv_path(key: Seq<char>) -> Seq<char> {
    "/admin/kv/"@ + key
}

/// The `Authorization` header that opens the admin routes.
pub open spec fn admin_header() -> Seq<char> {
    bearer_value(ADMIN_TOKEN@)
}

/// Whether `request` asks to read the value at `key`.
pub open spec fn reads(request: RequestView, key: Seq<char>) -> bool {
    request.method == "GET"@ && request.path == kv_path(key)
}

/// Whether `request` asks to write `value` at `key`.
pub open spec fn writes(request: RequestView, key: Seq<char>, value: Seq<u8>) -> bool {
    request.method == "POST"@ && request.path == kv_path(key) && request.body == value
}

/// Whether `request` asks to remove `key`.
pub open spec fn removes(request: RequestView, key: Seq<char>) -> bool {
    request.method == "DELETE"@ && request.path == admin_kv_path(key)
}

/// Whether `request` asks to remove every key.
pub open spec fn wipes(request: RequestView) -> bool {
    request.method == "DELETE"@ && request.path == "/admin/kv"@
}

/// Whether `request` carries the `Authorization` header that opens the admin
/// routes.
pub open spec fn is_admin(request: RequestView) -> bool {
    request.authorization == Some(admin_header())
}

/// The three methods of the table differ from each other.
proof fn lemma_methods_differ()
    ensures
        "GET"@ != "POST"@,
        "GET"@ != "DELETE"@,
        "POST"@ != "DELETE"@,
{
    reveal_strlit("GET");
    reveal_strlit("POST");
    reveal_strlit("DELETE");
    assert("GET"@.len() == 3 && "POST"@.len() == 4 && "DELETE"@.len() == 6);
}

/// The segments of the path of a key: `kv`, then what the key is cut into.
proof fn lemma_kv_path_segments(key: Seq<char>)
    ensures
        segments(kv_path(key)) == Some(seq!["kv"@] + split(key, SEPARATOR)),
        free_of("kv"@, SEPARATOR),
{
    reveal_strlit("/kv/");
    reveal_strlit("kv");
    let path = kv_path(key);
    assert(path.subrange(1, path.len() as int) =~= "kv"@ + seq![SEPARATOR] + key);
    lemma_split_concat("kv"@, key, SEPARATOR);
    lemma_split_plain("kv"@, SEPARATOR);
}

/// The segments of the path under which a key is removed: `admin`, `kv`, then
/// what the key is cut into.
proof fn lemma_admin_kv_path_segments(key: Seq<char>)
    ensures
        segments(admin_kv_path(key)) == Some(seq!["admin"@, "kv"@] + split(key, SEPARATOR)),
{
    reveal_strlit("/admin/kv/");
    reveal_strlit("admin");
    reveal_strlit("kv");
    let path = admin_kv_path(key);
    let head = "admin"@ + seq![SEPARATOR] + "kv"@;
    assert(path.subrange(1, path.len() as int) =~= head + seq![SEPARATOR] + key);
    lemma_split_concat(head, key, SEPARATOR);
    lemma_split_concat("admin"@, "kv"@, SEPARATOR);
    lemma_split_plain("admin"@, SEPARATOR);
    lemma_split_plain("kv"@, SEPARATOR);
    assert(seq!["admin"@] + seq!["kv"@] =~= seq!["admin"@, "kv"@]);
}

/// The segments of the path under which every key is removed.
proof fn lemma_admin_path_segments()
    ensures
        segments("/admin/kv"@) == Some(seq!["admin"@, "kv"@]),
{
    reveal_strlit("/admin/kv");
    reveal_strlit("admin");
    reveal_strlit("kv");
    let path = "/admin/kv"@;
    assert(path.subrange(1, path.len() as int) =~= "admin"@ + seq![SEPARATOR] + "kv"@);
    lemma_split_concat("admin"@, "kv"@, SEPARATOR);
    lemma_split_plain("admin"@, SEPARATOR);
    lemma_split_plain("kv"@, SEPARATOR);
    assert(seq!["admin"@] + seq!["kv"@] =~= seq!["admin"@, "kv"@]);
}

/// The parameters that a literal and a parameter bind on two segments.
proof fn lemma_bindings_two(a: Seq<char>, name: Seq<char>, x: Seq<char>, y: Seq<char>)
    ensures
        bindings(seq![SegmentView::Literal(a), SegmentView::Param(name)], seq![x, y]) == seq![
            PathParamView { name, value: y },
        ],
{
    let pattern = seq![SegmentView::Literal(a), SegmentView::Param(name)];
    let parts = seq![x, y];
    reveal_with_fuel(bindings, 3);
    assert(pattern.drop_last() =~= seq![SegmentView::Literal(a)]);
    assert(pattern.drop_last().drop_last() =~= Seq::<SegmentView>::empty());
    assert(bindings(pattern, parts) =~= seq![PathParamView { name, value: y }]);
}

/// The parameters that two literals and a parameter bind on three segments.
proof fn lemma_bindings_three(
    a: Seq<char>,
    b: Seq<char>,
    name: Seq<char>,
    x: Seq<char>,
    y: Seq<char>,
    z: Seq<char>,
)
    ensures
        bindings(
            seq![SegmentView::Literal(a), SegmentView::Literal(b), SegmentView::Param(name)],
            seq![x, y, z],
        ) == seq![PathParamView { name, value: z }],
{
    let pattern = seq![SegmentView::Literal(a), SegmentView::Literal(b), SegmentView::Param(name)];
    let parts = seq![x, y, z];
    reveal_with_fuel(bindings, 4);
    assert(pattern.drop_last() =~= seq![SegmentView::Literal(a), SegmentView::Literal(b)]);
    assert(pattern.drop_last().drop_last() =~= seq![SegmentView::Literal(a)]);
    assert(pattern.drop_last().drop_last().drop_last() =~= Seq::<SegmentView>::empty());
    assert(bindings(pattern, parts) =~= seq![PathParamView { name, value: z }]);
}

/// Two literals bind no parameter.
proof fn lemma_bindings_none(a: Seq<char>, b: Seq<char>, x: Seq<char>, y: Seq<char>)
    ensures
        bindings(seq![SegmentView::Literal(a), SegmentView::Literal(b)], seq![x, y])
            == Seq::<PathParamView>::empty(),
{
    let pattern = seq![SegmentView::Literal(a), SegmentView::Literal(b)];
    reveal_with_fuel(bindings, 3);
    assert(pattern.drop_last() =~= seq![SegmentView::Literal(a)]);
    assert(pattern.drop_last().drop_last() =~= Seq::<SegmentView>::empty());
}

/// Where a request to read a key goes: to the handler that reads, with the
/// key bound, where the key can stand as a segment; nowhere otherwise.
pub proof fn lemma_resolve_read(key: Seq<char>)
    ensures
        is_key(key) ==> resolve(table(), "GET"@, kv_path(key)) == Some(
            ResolvedView {
                index: 2,
                endpoint: Endpoint { handler: Handler::KvGet, body_limit: BodyLimit::Capped },
                params: seq![PathParamView { name: "key"@, value: key }],
            },
        ),
        !is_key(key) ==> resolve(table(), "GET"@, kv_path(key)) is None,
{
    lemma_methods_differ();
    lemma_kv_path_segments(key);
    lemma_split_len(key, SEPARATOR);
    reveal_strlit("");
    reveal_strlit("hello");
    reveal_strlit("kv");
    let parts = seq!["kv"@] + split(key, SEPARATOR);
    let t = table();
    assert(t.len() == 6);
    if is_key(key) {
        lemma_split_plain(key, SEPARATOR);
        assert(parts =~= seq!["kv"@, key]);
        assert(pattern_matches(t[2].pattern, parts));
        lemma_bindings_two("kv"@, "key"@, "kv"@, key);
        assert(is_first_match(t, "GET"@, parts, 2));
        lemma_first_match_is(t, "GET"@, parts, 2);
    } else {
        if key.len() > 0 {
            lemma_split_many(key, SEPARATOR);
        } else {
            assert(split(key, SEPARATOR) =~= seq![Seq::<char>::empty()]);
            assert(!segment_matches(t[2].pattern[1], parts[1]));
        }
        assert(!pattern_matches(t[2].pattern, parts));
        lemma_no_match(t, "GET"@, parts);
    }
}

/// Where a request to write a key goes: to the handler that writes, with the
/// key bound and no cap on the body, where the key can stand as a segment;
/// nowhere otherwise.
pub proof fn lemma_resolve_write(key: Seq<char>)
    ensures
        is_key(key) ==> resolve(table(), "POST"@, kv_path(key)) == Some(
            ResolvedView {
                index: 3,
                endpoint: Endpoint { handler: Handler::KvPost, body_limit: BodyLimit::Disabled },
                params: seq![PathParamView { name: "key"@, value: key }],
            },
        ),
        !is_key(key) ==> resolve(table(), "POST"@, kv_path(key)) is None,
{
    lemma_methods_differ();
    lemma_kv_path_segments(key);
    lemma_split_len(key, SEPARATOR);
    let parts = seq!["kv"@] + split(key, SEPARATOR);
    let t = table();
    assert(t.len() == 6);
    if is_key(key) {
        lemma_split_plain(key, SEPARATOR);
        assert(parts =~= seq!["kv"@, key]);
        assert(pattern_matches(t[3].pattern, parts));
        lemma_bindings_two("kv"@, "key"@, "kv"@, key);
        assert(is_first_match(t, "POST"@, parts, 3));
        lemma_first_match_is(t, "POST"@, parts, 3);
    } else {
        if key.len() > 0 {
            lemma_split_many(key, SEPARATOR);
        } else {
            assert(split(key, SEPARATOR) =~= seq![Seq::<char>::empty()]);
            assert(!segment_matches(t[3].pattern[1], parts[1]));
        }
        assert(!pattern_matches(t[3].pattern, parts));
        lemma_no_match(t, "POST"@, parts);
    }
}

/// Where a request to remove a key goes: to the handler that removes one key,
/// with the key bound, behind the bearer token.
pub proof fn lemma_resolve_remove(key: Seq<char>)
    requires
        is_key(key),
    ensures
        resolve(table(), "DELETE"@, admin_kv_path(key)) == Some(
            ResolvedView {
                index: 5,
                endpoint: Endpoint {
                    handler: Handler::AdminDeleteKey,
                    body_limit: BodyLimit::Capped,
                },
                params: seq![PathParamView { name: "key"@, value: key }],
            },
        ),
        table()[5].guards == seq![admin_header()],
{
    lemma_methods_differ();
    lemma_admin_kv_path_segments(key);
    lemma_split_plain(key, SEPARATOR);
    let parts = seq!["admin"@, "kv"@] + split(key, SEPARATOR);
    let t = table();
    assert(t.len() == 6);
    assert(parts =~= seq!["admin"@, "kv"@, key]);
    assert(t[5].pattern =~= seq![
        SegmentView::Literal("admin"@),
        SegmentView::Literal("kv"@),
        SegmentView::Param("key"@),
    ]);
    assert(t[4].pattern.len() == 2);
    assert(pattern_matches(t[5].pattern, parts));
    lemma_bindings_three("admin"@, "kv"@, "key"@, "admin"@, "kv"@, key);
    assert(is_first_match(t, "DELETE"@, parts, 5));
    lemma_first_match_is(t, "DELETE"@, parts, 5);
    assert(t[5].guards =~= seq![admin_header()]);
}

/// Where a request to remove every key goes: to the handler that wipes the
/// store, behind the bearer token.
pub proof fn lemma_resolve_wipe()
    ensures
        resolve(table(), "DELETE"@, "/admin/kv"@) == Some(
            ResolvedView {
                index: 4,
                endpoint: Endpoint { handler: Handler::AdminDelete, body_limit: BodyLimit::Capped },
                params: Seq::empty(),
            },
        ),
        table()[4].guards == seq![admin_header()],
{
    lemma_methods_differ();
    lemma_admin_path_segments();
    let parts = seq!["admin"@, "kv"@];
    let t = table();
    assert(t.len() == 6);
    assert(t[4].pattern =~= seq![SegmentView::Literal("admin"@), SegmentView::Literal("kv"@)]);
    assert(pattern_matches(t[4].pattern, parts));
    lemma_bindings_none("admin"@, "kv"@, "admin"@, "kv"@);
    assert(is_first_match(t, "DELETE"@, parts, 4));
    lemma_first_match_is(t, "DELETE"@, parts, 4);
    assert(t[4].guards =~= seq![admin_header()]);
}

/// Only the header that is the bearer token passes the checks of the admin
/// routes.
proof fn lemma_admin_guard(header: Option<Seq<char>>)
    ensures
        authorized(seq![admin_header()], header) <==> header == Some(admin_header()),
        authorized(Seq::<Seq<char>>::empty(), header),
{
    let guards = seq![admin_header()];
    assert(guards[0] == admin_header());
}

/// What reading a key answers: the stored bytes where the store holds the key;
/// `NotFound` where a usable store does not, whatever the key; the store is
/// as before.
pub proof fn law_read(store: StoreView, request: RequestView, key: Seq<char>)
    requires
        reads(request, key),
        !store.corrupted,
    ensures
        respond(table(), store, request).0 == store,
        is_key(key) && store.entries.contains_key(key) ==> respond(table(), store, request).1
            == bytes_response(store.entries[key]),
        is_key(key) && !store.entries.contains_key(key) ==> respond(table(), store, request).1
            == ResponseView::text(StatusCode::NotFound, "Key not found"@),
        !is_key(key) ==> respond(table(), store, request).1 == ResponseView::empty(
            StatusCode::NotFound,
        ),
{
    lemma_resolve_read(key);
    lemma_admin_guard(request.authorization);
    assert(table()[2].guards =~= Seq::<Seq<char>>::empty());
}

/// Round trip: on a usable store, writing a value at a key and then reading
/// the key answers exactly that value.
pub proof fn law_write_then_read(
    store: StoreView,
    write: RequestView,
    read: RequestView,
    key: Seq<char>,
    value: Seq<u8>,
)
    requires
        is_key(key),
        !store.corrupted,
        writes(write, key, value),
        reads(read, key),
    ensures
        ({
            let (written, first) = respond(table(), store, write);
            let (after, second) = respond(table(), written, read);
            &&& first == ResponseView::text(StatusCode::Success, "Inserted key"@)
            &&& written == store.put(key, value)
            &&& second == bytes_response(value)
            &&& after == written
        }),
{
    lemma_resolve_write(key);
    lemma_admin_guard(write.authorization);
    assert(table()[3].guards =~= Seq::<Seq<char>>::empty());
    law_read(store.put(key, value), read, key);
}

/// A key that a usable store does not hold reads as `NotFound`, whatever the
/// key.
pub proof fn law_read_absent(store: StoreView, request: RequestView, key: Seq<char>)
    requires
        reads(request, key),
        !store.corrupted,
        !store.entries.contains_key(key),
    ensures
        respond(table(), store, request).0 == store,
        respond(table(), store, request).1.status == StatusCode::NotFound,
{
    law_read(store, request, key);
}

/// On the store as it is at the start every key reads as `NotFound`.
pub proof fn law_read_at_start(request: RequestView, key: Seq<char>)
    requires
        reads(request, key),
    ensures
        respond(table(), StoreView::empty(), request).0 == StoreView::empty(),
        respond(table(), StoreView::empty(), request).1.status == StatusCode::NotFound,
{
    law_read(StoreView::empty(), request, key);
}

/// Without the bearer token a request to remove a key is answered with
/// `Unauthorized`, and the store is as before.
pub proof fn law_remove_unauthorized(store: StoreView, request: RequestView, key: Seq<char>)
    requires
        is_key(key),
        removes(request, key),
        !is_admin(request),
    ensures
        respond(table(), store, request) == (store, ResponseView::empty(StatusCode::Unauthorized)),
{
    lemma_resolve_remove(key);
    lemma_admin_guard(request.authorization);
}

/// With the bearer token a request to remove a key succeeds on a usable store
/// whether or not the key held a value, and the key then reads as `NotFound`.
pub proof fn law_remove_then_read(
    store: StoreView,
    remove: RequestView,
    read: RequestView,
    key: Seq<char>,
)
    requires
        is_key(key),
        !store.corrupted,
        removes(remove, key),
        is_admin(remove),
        reads(read, key),
    ensures
        ({
            let (removed, first) = respond(table(), store, remove);
            let (after, second) = respond(table(), removed, read);
            &&& first == ResponseView::text(StatusCode::Success, "Deleted entry"@)
            &&& removed == store.delete(key)
            &&& second == ResponseView::text(StatusCode::NotFound, "Key not found"@)
            &&& after == removed
        }),
{
    lemma_resolve_remove(key);
    lemma_admin_guard(remove.authorization);
    law_read(store.delete(key), read, key);
}

/// Without the bearer token a request to remove every key is answered with
/// `Unauthorized`, and the store is as before.
pub proof fn law_wipe_unauthorized(store: StoreView, request: RequestView)
    requires
        wipes(request),
        !is_admin(request),
    ensures
        respond(table(), store, request) == (store, ResponseView::empty(StatusCode::Unauthorized)),
{
    lemma_resolve_wipe();
    lemma_admin_guard(request.authorization);
}

/// With the bearer token a request to remove every key empties a usable
/// store: every key then reads as `NotFound`.
pub proof fn law_wipe_then_read(
    store: StoreView,
    wipe: RequestView,
    read: RequestView,
    key: Seq<char>,
)
    requires
        !store.corrupted,
        wipes(wipe),
        is_admin(wipe),
        reads(read, key),
    ensures
        ({
            let (wiped, first) = respond(table(), store, wipe);
            let (after, second) = respond(table(), wiped, read);
            &&& first == ResponseView::text(StatusCode::Success, "Deleted all entries"@)
            &&& wiped == StoreView::empty()
            &&& second.status == StatusCode::NotFound
            &&& after == wiped
        }),
{
    lemma_resolve_wipe();
    lemma_admin_guard(wipe.authorization);
    assert(key_param(Seq::<PathParamView>::empty()) is None);
    law_read(StoreView::empty(), read, key);
}

/// Writes to two different keys do not disturb each other: in whichever order
/// a usable store takes them, both succeed, each key then reads as its own
/// value, and the store is the same.
pub proof fn law_writes_to_distinct_keys(
    store: StoreView,
    first: RequestView,
    second: RequestView,
    read_first: RequestView,
    read_second: RequestView,
    key1: Seq<char>,
    value1: Seq<u8>,
    key2: Seq<char>,
    value2: Seq<u8>,
)
    requires
        is_key(key1),
        is_key(key2),
        key1 != key2,
        !store.corrupted,
        writes(first, key1, value1),
        writes(second, key2, value2),
        reads(read_first, key1),
        reads(read_second, key2),
    ensures
        ({
            let (s1, r1) = respond(table(), store, first);
            let (s12, r12) = respond(table(), s1, second);
            let (s2, r2) = respond(table(), store, second);
            let (s21, r21) = respond(table(), s2, first);
            let done = ResponseView::text(StatusCode::Success, "Inserted key"@);
            &&& r1 == done && r12 == done && r2 == done && r21 == done
            &&& s12 == s21
            &&& respond(table(), s12, read_first) == (s12, bytes_response(value1))
            &&& respond(table(), s12, read_second) == (s12, bytes_response(value2))
        }),
{
    lemma_resolve_write(key1);
    lemma_resolve_write(key2);
    lemma_admin_guard(first.authorization);
    lemma_admin_guard(second.authorization);
    assert(table()[3].guards =~= Seq::<Seq<char>>::empty());
    let s12 = store.put(key1, value1).put(key2, value2);
    let s21 = store.put(key2, value2).put(key1, value1);
    assert(s12.entries =~= s21.entries);
    law_read(s12, read_first, key1);
    law_read(s12, read_second, key2);
}

/// An unusable store stays as it is, whatever the table and the request.
pub proof fn law_corrupted_is_terminal(
    routes: Seq<RouteView>,
    store: StoreView,
    request: RequestView,
)
    requires
        store.corrupted,
    ensures
        respond(routes, store, request).0 == store,
{
}

/// On an unusable store, every request that reaches the store is answered
/// with `InternalServerError` and the message that the store is corrupted.
pub proof fn law_corrupted_answers(
    store: StoreView,
    request: RequestView,
    key: Seq<char>,
    value: Seq<u8>,
)
    requires
        store.corrupted,
        ({
            ||| is_key(key) && reads(request, key)
            ||| is_key(key) && writes(request, key, value)
            ||| is_key(key) && removes(request, key) && is_admin(request)
            ||| wipes(request) && is_admin(request)
        }),
    ensures
        respond(table(), store, request) == (
            store,
            ResponseView::text(StatusCode::InternalServerError, "Database corrupted"@),
        ),
{
    lemma_methods_differ();
    lemma_admin_guard(request.authorization);
    assert(table()[2].guards =~= Seq::<Seq<char>>::empty());
    assert(table()[3].guards =~= Seq::<Seq<char>>::empty());
    if wipes(request) {
        lemma_resolve_wipe();
    } else {
        lemma_resolve_read(key);
        lemma_resolve_write(key);
        if removes(request, key) {
            lemma_resolve_remove(key);
        }
    }
}

/// No two routes of the table take the same request: where a request goes
/// does not depend on the order of the routes.
pub proof fn law_routes_do_not_overlap(
    method: Seq<char>,
    parts: Seq<Seq<char>>,
    i: int,
    j: int,
)
    requires
        0 <= i < table().len(),
        0 <= j < table().len(),
        i != j,
        route_bind(table()[i], method, parts) is Some,
    ensures
        route_bind(table()[j], method, parts) is None,
{
    lemma_methods_differ();
    reveal_strlit("");
    reveal_strlit("hello");
    let t = table();
    assert(t.len() == 6);
    assert(t[0].method == "GET"@ && t[1].method == "GET"@ && t[2].method == "GET"@);
    assert(t[3].method == "POST"@);
    assert(t[4].method == "DELETE"@ && t[5].method == "DELETE"@);
    assert(t[0].pattern =~= seq![SegmentView::Literal(""@)]);
    assert(t[1].pattern =~= seq![SegmentView::Literal("hello"@)]);
    assert(t[2].pattern.len() == 2);
    assert(t[4].pattern.len() == 2);
    assert(t[5].pattern.len() == 3);
    assert(pattern_matches(t[i].pattern, parts));
    if t[j].method == method && t[j].pattern.len() == parts.len() {
        assert((i == 0 && j == 1) || (i == 1 && j == 0));
        assert(""@.len() == 0 && "hello"@.len() == 5);
        assert(t[i].pattern[0] == if i == 0 {
            SegmentView::Literal(""@)
        } else {
            SegmentView::Literal("hello"@)
        });
        assert(t[j].pattern[0] == if j == 0 {
            SegmentView::Literal(""@)
        } else {
            SegmentView::Literal("hello"@)
        });
        assert(segment_matches(t[i].pattern[0], parts[0]));
        assert(!segment_matches(t[j].pattern[0], parts[0]));
    }
}

/// The service records each request once, as its method and its path, and
/// answers as its route table does.
pub proof fn law_logged(app: Logger<Router>, store: StoreView, request: RequestView)
    requires
        app.service()@ == table(),
    ensures
        app.exchange(store, request) == (
            respond(table(), store, request).0,
            ExchangeView {
                log: seq![log_line(request.method, request.path)],
                response: respond(table(), store, request).1,
            },
        ),
{
    let (after, inside) = app.service().exchange(store, request);
    assert(seq![log_line(request.method, request.path)] + inside.log =~= seq![
        log_line(request.method, request.path),
    ]);
}

} // verus!
