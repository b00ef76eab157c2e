//! The laws of the session state machine, proved once and for all over
//! the postcondition predicates that the operations are specified with.

use vstd::prelude::*;

use crate::config::{
    protocol_mask, PROTOCOLS_ALL, PROTOCOLS_DEFAULT, PROTOCOL_TLSV1, PROTOCOL_TLSV1_0,
    PROTOCOL_TLSV1_1, PROTOCOL_TLSV1_2,
};
use crate::ctx::{
    close_allowed, close_post, handshake_post, last_colon, last_colon_from,
    lemma_last_colon_from, shutdown_post, split_hostport, SessionState, TlsContext,
};
use crate::err::{is_retry_rv, ErrorKind, TlsError};

verus! {

broadcast use vstd::string::group_string_axioms;

/// Each of the eight symbolic protocol tokens denotes its mask, and an
/// unknown token denotes none.
pub proof fn lemma_protocol_tokens()
    ensures
        protocol_mask("all"@) == Some(PROTOCOLS_ALL),
        protocol_mask("legacy"@) == Some(PROTOCOLS_ALL),
        protocol_mask("default"@) == Some(PROTOCOLS_DEFAULT),
        protocol_mask("secure"@) == Some(PROTOCOLS_DEFAULT),
        protocol_mask("tlsv1"@) == Some(PROTOCOL_TLSV1),
        protocol_mask("tlsv1.0"@) == Some(PROTOCOL_TLSV1_0),
        protocol_mask("tlsv1.1"@) == Some(PROTOCOL_TLSV1_1),
        protocol_mask("tlsv1.2"@) == Some(PROTOCOL_TLSV1_2),
        protocol_mask("unknown-proto"@) is None,
{
    reveal_strlit("all");
    reveal_strlit("legacy");
    reveal_strlit("default");
    reveal_strlit("secure");
    reveal_strlit("tlsv1");
    reveal_strlit("tlsv1.0");
    reveal_strlit("tlsv1.1");
    reveal_strlit("tlsv1.2");
    reveal_strlit("unknown-proto");
    assert("all"@.len() == 3);
    assert("legacy"@.len() == 6);
    assert("default"@.len() == 7);
    assert("secure"@.len() == 6);
    assert("tlsv1"@.len() == 5);
    assert("tlsv1.0"@.len() == 7);
    assert("tlsv1.1"@.len() == 7);
    assert("tlsv1.2"@.len() == 7);
    assert("unknown-proto"@.len() == 13);
    assert("secure"@[0] == 's' && "legacy"@[0] == 'l');
    assert("default"@[0] == 'd' && "tlsv1.0"@[0] == 't' && "tlsv1.1"@[0] == 't' && "tlsv1.2"@[0]
        == 't');
    assert("tlsv1.0"@[6] == '0' && "tlsv1.1"@[6] == '1' && "tlsv1.2"@[6] == '2');
}

/// A handshake that succeeded leaves the session established, and a
/// further handshake on it fails as a usage error, whatever the engine
/// would answer, leaving the session unchanged.
pub proof fn lemma_second_handshake_fails(
    pre: TlsContext,
    rv1: i64,
    m1: Seq<char>,
    mid: TlsContext,
    r1: Result<(), TlsError>,
    rv2: i64,
    m2: Seq<char>,
    post: TlsContext,
    r2: Result<(), TlsError>,
)
    requires
        handshake_post(pre, rv1, m1, mid, r1),
        r1 is Ok,
        handshake_post(mid, rv2, m2, post, r2),
    ensures
        mid.state == SessionState::Established,
        r2 is Err,
        r2->Err_0.kind == ErrorKind::Usage,
        post == mid,
{
}

/// Closing a session on which no handshake was ever started is a usage
/// error and changes nothing.
pub proof fn lemma_close_before_handshake(
    pre: TlsContext,
    rv: i64,
    m: Seq<char>,
    post: TlsContext,
    r: Result<(), TlsError>,
)
    requires
        pre.state == SessionState::Created || pre.state == SessionState::Configured || pre.state
            == SessionState::Connecting || pre.state == SessionState::Accepting,
        close_post(pre, rv, m, post, r),
    ensures
        r is Err,
        r->Err_0.kind == ErrorKind::Usage,
        post == pre,
{
}

/// A close that succeeded leaves the session closed, and closing it
/// again fails as a usage error, whatever the engine would answer,
/// leaving the session unchanged.
pub proof fn lemma_second_close_fails(
    pre: TlsContext,
    rv1: i64,
    m1: Seq<char>,
    mid: TlsContext,
    r1: Result<(), TlsError>,
    rv2: i64,
    m2: Seq<char>,
    post: TlsContext,
    r2: Result<(), TlsError>,
)
    requires
        close_post(pre, rv1, m1, mid, r1),
        r1 is Ok,
        close_post(mid, rv2, m2, post, r2),
    ensures
        mid.state == SessionState::Closed,
        r2 is Err,
        r2->Err_0.kind == ErrorKind::Usage,
        post == mid,
{
}

/// The close entry point absorbs exactly one retry sentinel: when the
/// first engine verdict is a sentinel and the repeated close succeeds,
/// the whole close succeeds and the session is closed.
pub proof fn lemma_close_retries_once(
    pre: TlsContext,
    rv1: i64,
    rv2: i64,
    m: Seq<char>,
    post: TlsContext,
    r: Result<(), TlsError>,
)
    requires
        close_allowed(pre.state),
        is_retry_rv(rv1),
        rv2 >= 0,
        shutdown_post(pre, rv1, rv2, m, post, r),
    ensures
        r is Ok,
        post.state == SessionState::Closed,
{
}

/// A second retry sentinel, or any other failure on the repeated close,
/// is an error, and the session is left mid-close.
pub proof fn lemma_close_second_retry_fails(
    pre: TlsContext,
    rv1: i64,
    rv2: i64,
    m: Seq<char>,
    post: TlsContext,
    r: Result<(), TlsError>,
)
    requires
        close_allowed(pre.state),
        is_retry_rv(rv1),
        rv2 < 0,
        shutdown_post(pre, rv1, rv2, m, post, r),
    ensures
        r is Err,
        post.state == SessionState::Closing,
{
}

/// Folding the port into the host denotes the same connection target:
/// for a host and port without colons, `connect("h:p", "")` resolves to
/// the pair `(h, p)`, exactly as `connect("h", "p")` does.
pub proof fn lemma_hostport_in_host(h: Seq<char>, p: Seq<char>)
    requires
        p.len() > 0,
        forall|i: int| 0 <= i < h.len() ==> h[i] != ':',
        forall|i: int| 0 <= i < p.len() ==> p[i] != ':',
    ensures
        split_hostport(h + seq![':'] + p, Seq::<char>::empty()) == split_hostport(h, p),
        split_hostport(h, p) == Some((h, p)),
{
    let s = h + seq![':'] + p;
    let k = last_colon(s);
    lemma_last_colon_from(s, s.len() as int);
    assert(s[h.len() as int] == ':');
    assert forall|j: int| h.len() < j < s.len() implies s[j] != ':' by {
        assert(s[j] == p[j - h.len() - 1]);
    }
    assert(k == h.len());
    assert(s.take(k) =~= h);
    assert(s.skip(k + 1) =~= p);
}

} // verus!
