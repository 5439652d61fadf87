//! Issuing requests and routing inbound frames: the correlation of each
//! response with the request that it answers.
use vstd::prelude::*;
use crate::frame::{Data, Frame, get_frame_type, is_event, is_event_data, frame_type_of};
use crate::table::PendingTable;
use crate::msg::decimal_of;

verus! {

/// Where an inbound frame goes.
pub enum Route<S> {
    /// Nowhere: it has no payload, or no pending request awaits its id.
    Discard,
    /// To the event-handling path.
    Event(Data),
    /// To the waiter of the request it answers, through that request's slot.
    Deliver(S, Frame),
}

/// `f` is the request frame for `data` under correlation id `echo`.
pub open spec fn is_request_frame(f: Frame, bot_id: i64, echo: Seq<char>, data: Data) -> bool {
    &&& f.bot_id == bot_id
    &&& f.frame_type == frame_type_of(data)
    &&& f.echo@ == echo
    &&& f.ok
    &&& f.extra@.len() == 0
    &&& f.wf()
    &&& f.data == Some(data)
}

/// The payload of `f` is present and is not an event: `f` is a response.
pub open spec fn is_response(f: Frame) -> bool {
    f.data matches Some(d) && !is_event_data(d)
}

/// What routing `f` does to the pending table `t`, and where `f` goes.
pub open spec fn step<S>(t: Map<Seq<char>, S>, f: Frame) -> (Map<Seq<char>, S>, Route<S>) {
    match f.data {
        None => (t, Route::Discard),
        Some(d) => if is_event_data(d) {
            (t, Route::Event(d))
        } else if t.contains_key(f.echo@) {
            (t.remove(f.echo@), Route::Deliver(t[f.echo@], f))
        } else {
            (t, Route::Discard)
        },
    }
}

/// Routing the frames `fs` one after another, from the table `t`.
pub open spec fn run<S>(t: Map<Seq<char>, S>, fs: Seq<Frame>) -> (Map<Seq<char>, S>, Seq<Route<S>>)
    decreases fs.len(),
{
    if fs.len() == 0 {
        (t, Seq::empty())
    } else {
        let prev = run(t, fs.drop_last());
        let next = step(prev.0, fs.last());
        (next.0, prev.1.push(next.1))
    }
}

/// The correlation ids that the frames `fs` carry.
pub open spec fn echo_set(fs: Seq<Frame>) -> Set<Seq<char>> {
    Set::new(|k: Seq<char>| exists|i: int| 0 <= i < fs.len() && fs[i].echo@ == k)
}

/// Builds the request frame for `data` under the correlation id `echo` and
/// registers `slot` for its response, before the frame can be sent. An id that
/// is already pending is refused: the slot comes back and the table is unchanged.
pub fn register_request<S>(bot_id: i64, echo: String, data: Data, slot: S, table: &mut PendingTable<S>) -> (r: Result<Frame, S>)
    requires
        old(table).wf(),
    ensures
        final(table).wf(),
        old(table)@.contains_key(echo@) ==> r == Err::<Frame, S>(slot) && final(table)@ == old(table)@,
        !old(table)@.contains_key(echo@) ==> (r matches Ok(f) && is_request_frame(f, bot_id, echo@, data)
            && final(table)@ == old(table)@.insert(echo@, slot)),
{
    let frame_type = get_frame_type(&data);
    let key = echo.clone();
    match table.register(key, slot) {
        Err(slot) => Err(slot),
        Ok(()) => Ok(Frame { bot_id, frame_type, echo, ok: true, extra: Vec::new(), data: Some(data) }),
    }
}

/// Relies on uuid's `Uuid::new_v4`, rendered by its `Simple` form's `Display`:
/// 128 random bits as 32 lower-case hexadecimal digits. Nothing is promised of
/// which digits come.
#[verifier::external_body]
fn random_echo() -> (r: String)
    ensures
        r@.len() == 32,
        forall|i: int| 0 <= i < 32 ==> is_lower_hex(#[trigger] r@[i]),
{
    uuid::Uuid::new_v4().to_simple().to_string()
}

/// A lower-case hexadecimal digit.
pub open spec fn is_lower_hex(c: char) -> bool {
    ('0' <= c && c <= '9') || ('a' <= c && c <= 'f')
}

/// Issues a request: draws a fresh random correlation id, registers `slot` under
/// it and returns the frame to send. Only where the id drawn is pending already
/// (so some pending id has 32 characters) does the slot come back, with the
/// table unchanged.
pub fn issue_request<S>(bot_id: i64, data: Data, slot: S, table: &mut PendingTable<S>) -> (r: Result<Frame, S>)
    requires
        old(table).wf(),
    ensures
        final(table).wf(),
        r matches Err(s) ==> s == slot && final(table)@ == old(table)@,
        r is Err ==> exists|k: Seq<char>| k.len() == 32 && old(table)@.contains_key(k),
        r matches Ok(f) ==> is_request_frame(f, bot_id, f.echo@, data)
            && f.echo@.len() == 32
            && !old(table)@.contains_key(f.echo@)
            && final(table)@ == old(table)@.insert(f.echo@, slot),
{
    let echo = random_echo();
    let ghost k = echo@;
    let r = register_request(bot_id, echo, data, slot, table);
    proof {
        if r is Err {
            assert(k.len() == 32 && old(table)@.contains_key(k));
        }
    }
    r
}

/// Routes an inbound frame. A frame without payload is discarded; an event goes
/// to the event path and leaves the table alone; a response takes the slot of
/// the pending request with its correlation id out of the table, and is
/// discarded where there is none.
pub fn route_inbound<S>(frame: Frame, table: &mut PendingTable<S>) -> (r: Route<S>)
    requires
        old(table).wf(),
    ensures
        final(table).wf(),
        (final(table)@, r) == step(old(table)@, frame),
{
    let event = match &frame.data {
        None => {
            return Route::Discard;
        },
        Some(d) => is_event(d),
    };
    if event {
        match frame.data {
            Some(d) => Route::Event(d),
            None => Route::Discard,
        }
    } else {
        match table.resolve(&frame.echo) {
            Some(slot) => Route::Deliver(slot, frame),
            None => Route::Discard,
        }
    }
}

/// An ASCII decimal digit.
pub open spec fn is_digit(c: char) -> bool {
    '0' <= c && c <= '9'
}

/// The value of a decimal digit.
pub open spec fn digit_value(c: char) -> int {
    (c as u32) as int - ('0' as u32) as int
}

/// One or more ASCII decimal digits.
pub open spec fn is_digits(s: Seq<char>) -> bool {
    s.len() > 0 && forall|i: int| 0 <= i < s.len() ==> is_digit(#[trigger] s[i])
}

/// The value of a run of decimal digits, most significant first.
pub open spec fn digits_value(s: Seq<char>) -> int
    decreases s.len(),
{
    if s.len() == 0 {
        0
    } else {
        10 * digits_value(s.drop_last()) + digit_value(s.last())
    }
}

/// `s` is an optional sign (`+` or `-`) followed by one or more ASCII digits,
/// and its value is `v`.
pub open spec fn reads_as_integer(s: Seq<char>, v: int) -> bool {
    if s.len() > 0 && s[0] == '-' {
        is_digits(s.drop_first()) && v == -digits_value(s.drop_first())
    } else if s.len() > 0 && s[0] == '+' {
        is_digits(s.drop_first()) && v == digits_value(s.drop_first())
    } else {
        is_digits(s) && v == digits_value(s)
    }
}

/// Relies on `str::parse::<i64>`: what it accepts is an optional sign followed
/// by one or more ASCII digits, and it gives their value; the decimal rendering
/// of a value parses back to that value.
#[verifier::external_body]
fn parse_decimal(s: &str) -> (r: Option<i64>)
    ensures
        forall|v: i64| s@ == decimal_of(v as int) ==> r == Some(v),
        r matches Some(v) ==> reads_as_integer(s@, v as int),
{
    s.parse::<i64>().ok()
}

/// The bot id that a connection announces before the engine attaches. The
/// connection is refused (`None`) where the announcement is missing, is not an
/// integer, or is zero.
pub fn connection_bot_id(announced: Option<&str>) -> (r: Option<i64>)
    ensures
        announced is None ==> r is None,
        r matches Some(v) ==> v != 0 && (announced matches Some(s) && reads_as_integer(s@, v as int)),
        announced matches Some(s) ==> forall|v: i64| #![auto] s@ == decimal_of(v as int) ==> r == (if v == 0 {
            None
        } else {
            Some(v)
        }),
{
    match announced {
        None => None,
        Some(s) => match parse_decimal(s) {
            Some(v) => if v == 0 {
                None
            } else {
                Some(v)
            },
            None => None,
        },
    }
}

/// A response whose correlation id is not pending is discarded, and the table
/// stays as it was.
pub proof fn lemma_unknown_response_discarded<S>(t: Map<Seq<char>, S>, f: Frame)
    requires
        is_response(f),
        !t.contains_key(f.echo@),
    ensures
        step(t, f) == (t, Route::<S>::Discard),
{
}

/// A response delivered twice reaches its waiter on the first arrival; the
/// second arrival is discarded and changes nothing.
pub proof fn lemma_duplicate_response<S>(t: Map<Seq<char>, S>, f: Frame)
    requires
        is_response(f),
        t.contains_key(f.echo@),
    ensures
        step(t, f) == (t.remove(f.echo@), Route::Deliver(t[f.echo@], f)),
        step(step(t, f).0, f) == (t.remove(f.echo@), Route::<S>::Discard),
{
}

/// An event goes to the event path whatever requests are pending, and is never
/// taken for a response.
pub proof fn lemma_event_not_consumed<S>(t: Map<Seq<char>, S>, f: Frame)
    requires
        f.data matches Some(d) && is_event_data(d),
    ensures
        step(t, f) == (t, Route::<S>::Event(f.data.unwrap())),
{
}

/// Responses to distinct pending requests, arriving in any order, each reach
/// the slot registered under their own correlation id and no other; those
/// requests then leave the table.
pub proof fn lemma_responses_reach_own_waiters<S>(t: Map<Seq<char>, S>, fs: Seq<Frame>)
    requires
        forall|i: int| 0 <= i < fs.len() ==> is_response(#[trigger] fs[i]),
        forall|i: int| 0 <= i < fs.len() ==> t.contains_key(#[trigger] fs[i].echo@),
        forall|i: int, j: int| 0 <= i < j < fs.len() ==> fs[i].echo@ != fs[j].echo@,
    ensures
        run(t, fs).1.len() == fs.len(),
        forall|i: int| 0 <= i < fs.len() ==> #[trigger] run(t, fs).1[i] == Route::Deliver(t[fs[i].echo@], fs[i]),
        run(t, fs).0 == t.remove_keys(echo_set(fs)),
    decreases fs.len(),
{
    if fs.len() > 0 {
        let init = fs.drop_last();
        lemma_responses_reach_own_waiters(t, init);
        let f = fs.last();
        let prev = run(t, init);
        assert(!echo_set(init).contains(f.echo@)) by {
            if echo_set(init).contains(f.echo@) {
                let i = choose|i: int| 0 <= i < init.len() && init[i].echo@ == f.echo@;
                assert(fs[i].echo@ == fs[fs.len() - 1].echo@);
            }
        }
        assert(t.contains_key(fs[fs.len() - 1].echo@));
        assert(prev.0.contains_key(f.echo@));
        assert(prev.0[f.echo@] == t[f.echo@]);
        assert(is_response(fs[fs.len() - 1]));
        assert(run(t, fs).0 =~= t.remove_keys(echo_set(fs))) by {
            assert(echo_set(fs) =~= echo_set(init).insert(f.echo@)) by {
                assert forall|k: Seq<char>| echo_set(fs).contains(k) implies echo_set(init).insert(f.echo@).contains(k) by {
                    let i = choose|i: int| 0 <= i < fs.len() && fs[i].echo@ == k;
                    if i < fs.len() - 1 {
                        assert(init[i].echo@ == k);
                    }
                }
                assert forall|k: Seq<char>| echo_set(init).insert(f.echo@).contains(k) implies echo_set(fs).contains(k) by {
                    if k != f.echo@ {
                        let i = choose|i: int| 0 <= i < init.len() && init[i].echo@ == k;
                        assert(fs[i].echo@ == k);
                    } else {
                        assert(fs[fs.len() - 1].echo@ == k);
                    }
                }
            }
        }
        assert forall|i: int| 0 <= i < fs.len() implies #[trigger] run(t, fs).1[i] == Route::Deliver(t[fs[i].echo@], fs[i]) by {
            if i < fs.len() - 1 {
                assert(run(t, fs).1[i] == prev.1[i]);
                assert(init[i] == fs[i]);
            }
        }
    }
}

/// Whatever frames arrive, in whatever order (events, unknown ids and repeated
/// responses mixed in), a frame is only ever delivered to the slot registered
/// under its own correlation id, and no slot is delivered to twice. The table
/// only loses entries, and loses each one that was delivered.
pub proof fn lemma_no_cross_talk<S>(t: Map<Seq<char>, S>, fs: Seq<Frame>)
    ensures
        run(t, fs).1.len() == fs.len(),
        forall|k: Seq<char>| #[trigger] run(t, fs).0.contains_key(k) ==> t.contains_key(k) && run(t, fs).0[k] == t[k],
        forall|i: int| 0 <= i < fs.len() ==> (#[trigger] run(t, fs).1[i] matches Route::Deliver(s, f) ==> f == fs[i]
            && t.contains_key(f.echo@) && s == t[f.echo@] && !run(t, fs).0.contains_key(f.echo@)),
        forall|i: int, j: int| 0 <= i < j < fs.len() && #[trigger] run(t, fs).1[i] is Deliver
            && #[trigger] run(t, fs).1[j] is Deliver ==> fs[i].echo@ != fs[j].echo@,
    decreases fs.len(),
{
    if fs.len() > 0 {
        let init = fs.drop_last();
        lemma_no_cross_talk(t, init);
        let prev = run(t, init);
        let f = fs.last();
        let n = fs.len() - 1;
        assert forall|i: int| 0 <= i < n implies #[trigger] run(t, fs).1[i] == prev.1[i] && fs[i] == init[i] by {}
        assert forall|i: int| 0 <= i < fs.len() implies (#[trigger] run(t, fs).1[i] matches Route::Deliver(s, g) ==> g == fs[i]
            && t.contains_key(g.echo@) && s == t[g.echo@] && !run(t, fs).0.contains_key(g.echo@)) by {
            if i < n {
                assert(prev.1[i] == run(t, fs).1[i]);
            }
        }
        assert forall|i: int, j: int| 0 <= i < j < fs.len() && #[trigger] run(t, fs).1[i] is Deliver
            && #[trigger] run(t, fs).1[j] is Deliver implies fs[i].echo@ != fs[j].echo@ by {
            assert(prev.1[i] == run(t, fs).1[i]);
            if j < n {
                assert(prev.1[j] == run(t, fs).1[j]);
            } else {
                assert(prev.0.contains_key(f.echo@));
            }
        }
    }
}

/// One thing that happens on a connection: a request registered under a
/// correlation id, or a frame arriving.
pub enum Happening<S> {
    Register(Seq<char>, S),
    Arrive(Frame),
}

/// What one happening does to the pending table. A registration under a
/// pending id is refused and changes nothing; it routes nowhere.
pub open spec fn happen<S>(t: Map<Seq<char>, S>, h: Happening<S>) -> (Map<Seq<char>, S>, Route<S>) {
    match h {
        Happening::Register(k, s) => if t.contains_key(k) {
            (t, Route::Discard)
        } else {
            (t.insert(k, s), Route::Discard)
        },
        Happening::Arrive(f) => step(t, f),
    }
}

/// The pending table and the routes after the happenings `hs`, on a connection
/// that starts with no request pending.
pub open spec fn history<S>(hs: Seq<Happening<S>>) -> (Map<Seq<char>, S>, Seq<Route<S>>)
    decreases hs.len(),
{
    if hs.len() == 0 {
        (Map::empty(), Seq::empty())
    } else {
        let prev = history(hs.drop_last());
        let next = happen(prev.0, hs.last());
        (next.0, prev.1.push(next.1))
    }
}

/// The route `r` hands a frame with correlation id `e` to a waiter.
pub open spec fn delivers<S>(r: Route<S>, e: Seq<char>) -> bool {
    r matches Route::Deliver(_, g) && g.echo@ == e
}

/// The happening at `j` registers `s` under `e`, the id was not pending then,
/// and no frame with that id was delivered after it and before `i`.
pub open spec fn open_registration<S>(hs: Seq<Happening<S>>, e: Seq<char>, s: S, j: int, i: int) -> bool {
    &&& 0 <= j < i
    &&& hs[j] == Happening::Register(e, s)
    &&& !history(hs.subrange(0, j)).0.contains_key(e)
    &&& forall|k: int| j < k < i ==> !delivers(#[trigger] history(hs).1[k], e)
}

/// Registrations and arrivals interleaved in any order: every delivery hands
/// the arriving frame to the slot of the one registration under its own id that
/// was accepted and not yet answered, so no waiter gets another's response and
/// none is answered twice.
pub proof fn lemma_no_cross_talk_interleaved<S>(hs: Seq<Happening<S>>)
    ensures
        history(hs).1.len() == hs.len(),
        forall|i: int| 0 <= i < hs.len() ==> (#[trigger] history(hs).1[i] matches Route::Deliver(s, f) ==>
            hs[i] == Happening::<S>::Arrive(f)
            && exists|j: int| open_registration(hs, f.echo@, s, j, i)),
        forall|e: Seq<char>| #[trigger] history(hs).0.contains_key(e) ==>
            exists|j: int| open_registration(hs, e, history(hs).0[e], j, hs.len() as int),
    decreases hs.len(),
{
    if hs.len() > 0 {
        let init = hs.drop_last();
        let n = init.len() as int;
        lemma_no_cross_talk_interleaved(init);
        let prev = history(init);
        let cur = history(hs);
        assert(hs.subrange(0, n) =~= init);
        assert forall|j: int| 0 <= j <= n implies #[trigger] hs.subrange(0, j) == init.subrange(0, j) by {
            assert(hs.subrange(0, j) =~= init.subrange(0, j));
        }
        assert forall|k: int| 0 <= k < n implies #[trigger] cur.1[k] == prev.1[k] && hs[k] == init[k] by {}
        // a registration open in the prefix stays open unless the last happening answers it
        assert forall|e: Seq<char>, s: S, j: int| open_registration(init, e, s, j, n) && !delivers(cur.1[n], e)
            implies #[trigger] open_registration(hs, e, s, j, n + 1) by {
            assert(hs.subrange(0, j) == init.subrange(0, j));
            assert forall|k: int| j < k < n + 1 implies !delivers(#[trigger] cur.1[k], e) by {
                if k < n {
                    assert(cur.1[k] == prev.1[k]);
                }
            }
        }
        assert forall|i: int, e: Seq<char>, s: S, j: int| i <= n && open_registration(init, e, s, j, i)
            implies #[trigger] open_registration(hs, e, s, j, i) by {
            assert(hs.subrange(0, j) == init.subrange(0, j));
            assert forall|k: int| j < k < i implies !delivers(#[trigger] cur.1[k], e) by {
                assert(cur.1[k] == prev.1[k]);
            }
        }
        assert forall|i: int| 0 <= i < hs.len() implies (#[trigger] cur.1[i] matches Route::Deliver(s, f) ==>
            hs[i] == Happening::<S>::Arrive(f)
            && exists|j: int| open_registration(hs, f.echo@, s, j, i)) by {
            if i < n {
                assert(cur.1[i] == prev.1[i]);
                if let Route::Deliver(s, f) = cur.1[i] {
                    let j = choose|j: int| open_registration(init, f.echo@, s, j, i);
                    assert(open_registration(hs, f.echo@, s, j, i));
                }
            } else {
                if let Route::Deliver(s, f) = cur.1[i] {
                    let e = f.echo@;
                    assert(prev.0.contains_key(e));
                    let j = choose|j: int| open_registration(init, e, prev.0[e], j, n);
                    assert(open_registration(hs, e, s, j, i)) by {
                        assert(hs.subrange(0, j) == init.subrange(0, j));
                        assert forall|k: int| j < k < i implies !delivers(#[trigger] cur.1[k], e) by {
                            assert(cur.1[k] == prev.1[k]);
                        }
                    }
                }
            }
        }
        assert forall|e: Seq<char>| #[trigger] cur.0.contains_key(e) implies
            exists|j: int| open_registration(hs, e, cur.0[e], j, hs.len() as int) by {
            match hs.last() {
                Happening::Register(k, s) => {
                    if e == k && !prev.0.contains_key(k) {
                        assert(open_registration(hs, e, cur.0[e], n, n + 1));
                    } else {
                        let j = choose|j: int| open_registration(init, e, prev.0[e], j, n);
                        assert(open_registration(hs, e, cur.0[e], j, n + 1));
                    }
                },
                Happening::Arrive(f) => {
                    let j = choose|j: int| open_registration(init, e, prev.0[e], j, n);
                    assert(!delivers(cur.1[n], e));
                    assert(open_registration(hs, e, cur.0[e], j, n + 1));
                },
            }
        }
    }
}

/// Answering a batch of pending requests in the reverse of their order still
/// hands each waiter its own response.
pub proof fn lemma_reverse_order_answers<S>(t: Map<Seq<char>, S>, fs: Seq<Frame>)
    requires
        forall|i: int| 0 <= i < fs.len() ==> is_response(#[trigger] fs[i]),
        forall|i: int| 0 <= i < fs.len() ==> t.contains_key(#[trigger] fs[i].echo@),
        forall|i: int, j: int| 0 <= i < j < fs.len() ==> fs[i].echo@ != fs[j].echo@,
    ensures
        forall|i: int| 0 <= i < fs.len() ==> #[trigger] run(t, fs.reverse()).1[fs.len() - 1 - i]
            == Route::Deliver(t[fs[i].echo@], fs[i]),
{
    let rs = fs.reverse();
    assert forall|i: int| 0 <= i < rs.len() implies is_response(#[trigger] rs[i]) && t.contains_key(rs[i].echo@) by {
        assert(rs[i] == fs[fs.len() - 1 - i]);
    }
    assert forall|i: int, j: int| 0 <= i < j < rs.len() implies rs[i].echo@ != rs[j].echo@ by {
        assert(rs[i] == fs[fs.len() - 1 - i]);
        assert(rs[j] == fs[fs.len() - 1 - j]);
    }
    lemma_responses_reach_own_waiters(t, rs);
    assert forall|i: int| 0 <= i < fs.len() implies #[trigger] run(t, rs).1[fs.len() - 1 - i]
        == Route::Deliver(t[fs[i].echo@], fs[i]) by {
        assert(rs[fs.len() - 1 - i] == fs[i]);
    }
}

} // verus!
