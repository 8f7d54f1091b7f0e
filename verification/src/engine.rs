//! The correlation and session engine's decisions: tag allocation,
//! outbound pacing, the single-flight session slot, and the
//! cache-or-dispatch choice. The transport loop around it performs the
//! sends and reads and feeds events back in.
use vstd::prelude::*;

use crate::strutil::digit_char;
use crate::strutil::hex_digits;
use crate::strutil::u64_to_hex;
use crate::strutil::str_eq;
use crate::wire::build_wire_line;
use crate::wire::wire_line;

verus! {

/// The textual id of the tag with this sequence number.
pub open spec fn tag_str(n: nat) -> Seq<char> {
    seq!['t'] + hex_digits(n)
}

/// The value of one lowercase hex digit character.
pub open spec fn hex_digit_val(c: char) -> int {
    if '0' <= c && c <= '9' {
        c as int - 48
    } else {
        c as int - 87
    }
}

/// The value a hex rendering denotes.
pub open spec fn hex_seq_val(s: Seq<char>) -> int
    decreases s.len(),
{
    if s.len() == 0 {
        0
    } else {
        hex_seq_val(s.drop_last()) * 16 + hex_digit_val(s.last())
    }
}

/// Reading a hex rendering back gives the number it was made from.
proof fn lemma_hex_roundtrip(n: nat)
    ensures
        hex_seq_val(hex_digits(n)) == n,
    decreases n,
{
    reveal_with_fuel(hex_seq_val, 2);
    if n < 16 {
        assert(hex_digits(n).drop_last() =~= Seq::<char>::empty());
        assert(hex_digits(n).last() == digit_char(n as int));
        lemma_hex_digit_roundtrip(n as int);
        assert(hex_seq_val(Seq::<char>::empty()) == 0);
    } else {
        lemma_hex_roundtrip(n / 16);
        assert(hex_digits(n).drop_last() =~= hex_digits(n / 16));
        lemma_hex_digit_roundtrip((n % 16) as int);
        vstd::arithmetic::div_mod::lemma_fundamental_div_mod(n as int, 16);
    }
}

/// Reading a hex digit character back gives its value.
proof fn lemma_hex_digit_roundtrip(d: int)
    requires
        0 <= d < 16,
    ensures
        hex_digit_val(digit_char(d)) == d,
{
    if d < 10 {
        assert(digit_char(d) as int == d + 48);
        assert('0' as int == 48);
        assert('9' as int == 57);
    } else {
        assert(digit_char(d) as int == d + 87);
        assert('0' as int == 48);
        assert('9' as int == 57);
    }
}

/// Distinct counters render to distinct tags, so a tag is never
/// reused.
pub proof fn lemma_tag_str_injective(a: nat, b: nat)
    requires
        tag_str(a) == tag_str(b),
    ensures
        a == b,
{
    assert(hex_digits(a) =~= tag_str(a).skip(1));
    assert(hex_digits(b) =~= tag_str(b).skip(1));
    lemma_hex_roundtrip(a);
    lemma_hex_roundtrip(b);
}

/// First position holding tag `t` in the correlation table, or -1.
pub open spec fn find_tag(tags: Seq<Seq<char>>, t: Seq<char>) -> int
    decreases tags.len(),
{
    if tags.len() == 0 {
        -1
    } else if tags[0] == t {
        0
    } else {
        let r = find_tag(tags.skip(1), t);
        if r < 0 {
            -1
        } else {
            r + 1
        }
    }
}

/// The tag was rendered from a counter value the engine has already
/// passed.
pub open spec fn tag_from(next: u64, t: Seq<char>) -> bool {
    exists|m: nat| m < next && t == tag_str(m)
}

/// No tag is registered twice.
pub open spec fn distinct_tags(tags: Seq<Seq<char>>) -> bool {
    forall|i: int, j: int| 0 <= i < j < tags.len() ==> tags[i] != tags[j]
}

/// What `find_tag` says about the table's entries.
pub proof fn lemma_find_tag(tags: Seq<Seq<char>>, t: Seq<char>)
    ensures
        find_tag(tags, t) == -1 ==> forall|i: int| 0 <= i < tags.len() ==> tags[i] != t,
        find_tag(tags, t) >= 0 ==> find_tag(tags, t) < tags.len() && tags[find_tag(tags, t)] == t
            && forall|i: int| 0 <= i < find_tag(tags, t) ==> tags[i] != t,
    decreases tags.len(),
{
    if tags.len() > 0 && tags[0] != t {
        lemma_find_tag(tags.skip(1), t);
        let r1 = find_tag(tags.skip(1), t);
        if r1 < 0 {
            assert forall|i: int| 0 <= i < tags.len() implies tags[i] != t by {
                if i > 0 {
                    assert(tags.skip(1)[i - 1] != t);
                }
            }
        } else {
            assert(tags[r1 + 1] == tags.skip(1)[r1]);
            assert forall|i: int| 0 <= i < r1 + 1 implies tags[i] != t by {
                if i > 0 {
                    assert(tags.skip(1)[i - 1] != t);
                }
            }
        }
    }
}

/// `find_tag` from the table's entries: `i` is the first match, or
/// there is none when `i` reaches the end.
pub proof fn lemma_find_tag_of(tags: Seq<Seq<char>>, t: Seq<char>, i: int)
    requires
        0 <= i <= tags.len(),
        forall|j: int| 0 <= j < i ==> tags[j] != t,
        i < tags.len() ==> tags[i] == t,
    ensures
        find_tag(tags, t) == if i == tags.len() {
            -1int
        } else {
            i
        },
    decreases tags.len(),
{
    if tags.len() > 0 && tags[0] != t {
        assert forall|j: int| 0 <= j < i - 1 implies tags.skip(1)[j] != t by {
            assert(tags[j + 1] != t);
        }
        if i - 1 < tags.skip(1).len() {
            assert(tags.skip(1)[i - 1] == tags[i]);
        }
        lemma_find_tag_of(tags.skip(1), t, i - 1);
    }
}

/// A tag leaves the correlation table at most once: the completion
/// that removes it leaves no further entry for it, so a second
/// matching completion finds nothing.
pub proof fn lemma_no_double_completion(tags: Seq<Seq<char>>, t: Seq<char>)
    requires
        distinct_tags(tags),
        find_tag(tags, t) >= 0,
    ensures
        find_tag(tags.remove(find_tag(tags, t)), t) == -1,
{
    let f = find_tag(tags, t);
    lemma_find_tag(tags, t);
    let rest = tags.remove(f);
    assert forall|j: int| 0 <= j < rest.len() implies rest[j] != t by {
        if j < f {
            assert(rest[j] == tags[j]);
        } else {
            assert(rest[j] == tags[j + 1]);
            assert(tags[f] != tags[j + 1]);
        }
    }
    lemma_find_tag_of(rest, t, rest.len() as int);
}

/// The shared session slot: empty, claimed by one caller that is
/// authenticating, or holding the established id.
#[derive(Debug)]
pub enum SessionSlot {
    NoSession,
    Establishing,
    Ready(String),
}

/// What a caller asking for the session is told to do.
#[derive(Debug)]
pub enum SessionAction {
    UseSession(String),
    MustAuthenticate,
    Wait,
}

/// How one request proceeds after the cache was consulted.
#[derive(Debug)]
pub enum DispatchPlan {
    UseCached,
    NeedSession,
    SendLine(String, String),
}

/// The engine's own state: the tag counter and the pacing counter are
/// monotonic for the process lifetime; the session slot is written
/// once per establishment.
pub struct ClientCore {
    pub next_id: u64,
    pub packets_sent: u64,
    pub session: SessionSlot,
    pub pending: Vec<String>,
}

impl ClientCore {
    /// Every outstanding tag came from an earlier counter value, and
    /// no tag is registered twice.
    pub open spec fn inv(&self) -> bool {
        &&& forall|j: int|
            0 <= j < self.pending@.len() ==> tag_from(
                self.next_id,
                (#[trigger] self.pending@[j])@,
            )
        &&& distinct_tags(self.pending.deep_view())
    }

    /// A fresh engine: no tag given out yet, no session, and the
    /// pacing counter primed as if the login datagram was sent first.
    pub fn new() -> (r: ClientCore)
        ensures
            r.next_id == 0,
            r.packets_sent == 1,
            r.session is NoSession,
            r.pending@.len() == 0,
            r.inv(),
    {
        ClientCore {
            next_id: 0,
            packets_sent: 1,
            session: SessionSlot::NoSession,
            pending: Vec::new(),
        }
    }

    /// Gives out the next tag. Tags are never reused: the counter only
    /// grows.
    pub fn next_tag(&mut self) -> (r: String)
        requires
            old(self).next_id < u64::MAX,
        ensures
            r@ == tag_str(old(self).next_id as nat),
            final(self).next_id == old(self).next_id + 1,
            final(self).packets_sent == old(self).packets_sent,
            final(self).session == old(self).session,
            final(self).pending == old(self).pending,
    {
        let mut s = "t".to_owned();
        proof {
            reveal_strlit("t");
        }
        s.append(u64_to_hex(self.next_id).as_str());
        self.next_id = self.next_id + 1;
        proof {
            assert(s@ =~= tag_str(old(self).next_id as nat));
        }
        s
    }

    /// Counts one datagram out and says whether the anti-flood delay
    /// applies before the next send: it does from the sixth datagram
    /// of the connection's lifetime on.
    pub fn record_send(&mut self) -> (r: bool)
        requires
            old(self).packets_sent < u64::MAX,
        ensures
            final(self).packets_sent == old(self).packets_sent + 1,
            r == (old(self).packets_sent + 1 > 5),
            final(self).next_id == old(self).next_id,
            final(self).session == old(self).session,
            final(self).pending == old(self).pending,
    {
        self.packets_sent = self.packets_sent + 1;
        self.packets_sent > 5
    }

    /// Asks for the session. Only a caller that finds the slot empty
    /// is told to authenticate, and that claim moves the slot to the
    /// establishing state at once, so every concurrent caller is told
    /// to wait instead: one authentication round trip per
    /// establishment.
    pub fn session_action(&mut self) -> (r: SessionAction)
        ensures
            match old(self).session {
                SessionSlot::Ready(s) => r matches SessionAction::UseSession(id) && id == s
                    && final(self).session == old(self).session,
                SessionSlot::Establishing => r is Wait && final(self).session == old(self).session,
                SessionSlot::NoSession => r is MustAuthenticate && final(self).session
                    is Establishing,
            },
            final(self).next_id == old(self).next_id,
            final(self).packets_sent == old(self).packets_sent,
            final(self).pending == old(self).pending,
    {
        match &self.session {
            SessionSlot::Ready(s) => SessionAction::UseSession(s.clone()),
            SessionSlot::Establishing => SessionAction::Wait,
            SessionSlot::NoSession => {
                self.session = SessionSlot::Establishing;
                SessionAction::MustAuthenticate
            },
        }
    }

    /// Publishes the id that the authentication round trip returned.
    pub fn finish_login(&mut self, session_id: String) -> (r: ())
        requires
            old(self).session is Establishing,
        ensures
            final(self).session == SessionSlot::Ready(session_id),
            final(self).next_id == old(self).next_id,
            final(self).packets_sent == old(self).packets_sent,
            final(self).pending == old(self).pending,
    {
        self.session = SessionSlot::Ready(session_id);
    }

    /// Releases the slot after a failed authentication, so a later
    /// caller may try again.
    pub fn fail_login(&mut self) -> (r: ())
        requires
            old(self).session is Establishing,
        ensures
            final(self).session is NoSession,
            final(self).next_id == old(self).next_id,
            final(self).packets_sent == old(self).packets_sent,
            final(self).pending == old(self).pending,
    {
        self.session = SessionSlot::NoSession;
    }

    /// Decides how a request proceeds once the cache was consulted. A
    /// cache hit is answered from the cached triple alone: no tag is
    /// allocated, no line is built, and the engine is untouched, so a
    /// hit never produces outbound traffic. On a miss a command that
    /// needs a session without one established is sent to the session
    /// slot first; otherwise the wire line is built under a fresh tag.
    pub fn plan_request(&mut self, command: &str, args: &str, needs_login: bool, cached: bool) -> (r:
        DispatchPlan)
        requires
            old(self).next_id < u64::MAX,
            old(self).inv(),
        ensures
            final(self).inv(),
            cached ==> r is UseCached && *final(self) == *old(self),
            !cached && needs_login && !(old(self).session is Ready) ==> r is NeedSession
                && *final(self) == *old(self),
            !cached && (needs_login ==> old(self).session is Ready) ==> ({
                &&& r matches DispatchPlan::SendLine(line, tag)
                &&& tag@ == tag_str(old(self).next_id as nat)
                &&& line@ == wire_line(
                    command@,
                    args@,
                    tag@,
                    if needs_login {
                        Some(old(self).session->Ready_0@)
                    } else {
                        None
                    },
                )
                &&& final(self).next_id == old(self).next_id + 1
                &&& final(self).session == old(self).session
                &&& final(self).packets_sent == old(self).packets_sent
                &&& final(self).pending.deep_view() == old(self).pending.deep_view().push(tag@)
            }),
    {
        if cached {
            return DispatchPlan::UseCached;
        }
        if needs_login {
            let session_id = match &self.session {
                SessionSlot::Ready(s) => s.clone(),
                _ => {
                    return DispatchPlan::NeedSession;
                },
            };
            let tag = self.next_tag();
            let line = build_wire_line(command, args, tag.as_str(), Some(session_id.as_str()));
            proof {
                assert forall|j: int|
                    0 <= j < self.pending@.len() implies tag_from(
                    (self.next_id - 1) as u64,
                    (#[trigger] self.pending@[j])@,
                ) by {
                    assert(tag_from(old(self).next_id, self.pending@[j]@));
                }
            }
            self.register(tag.clone());
            DispatchPlan::SendLine(line, tag)
        } else {
            let tag = self.next_tag();
            let line = build_wire_line(command, args, tag.as_str(), None);
            proof {
                assert forall|j: int|
                    0 <= j < self.pending@.len() implies tag_from(
                    (self.next_id - 1) as u64,
                    (#[trigger] self.pending@[j])@,
                ) by {
                    assert(tag_from(old(self).next_id, self.pending@[j]@));
                }
            }
            self.register(tag.clone());
            DispatchPlan::SendLine(line, tag)
        }
    }

    /// Registers a tag this engine just gave out in the correlation
    /// table, where the matching inbound reply will claim it.
    fn register(&mut self, tag: String)
        requires
            old(self).next_id >= 1,
            forall|j: int|
                0 <= j < old(self).pending@.len() ==> tag_from(
                    (old(self).next_id - 1) as u64,
                    (#[trigger] old(self).pending@[j])@,
                ),
            distinct_tags(old(self).pending.deep_view()),
            tag@ == tag_str((old(self).next_id - 1) as nat),
        ensures
            final(self).inv(),
            final(self).pending.deep_view() == old(self).pending.deep_view().push(tag@),
            final(self).next_id == old(self).next_id,
            final(self).packets_sent == old(self).packets_sent,
            final(self).session == old(self).session,
    {
        proof {
            let tags = self.pending.deep_view();
            assert forall|j: int| 0 <= j < tags.len() implies tags[j] != tag@ by {
                assert(tag_from((self.next_id - 1) as u64, self.pending@[j]@));
                let m = choose|m: nat|
                    m < (self.next_id - 1) as u64 && self.pending@[j]@ == tag_str(m);
                assert(self.pending.deep_view()[j] == self.pending@[j]@);
                if tags[j] == tag@ {
                    assert(tag_str(m) == tag_str((self.next_id - 1) as nat));
                    lemma_tag_str_injective(m, (self.next_id - 1) as nat);
                }
            }
            assert forall|j: int|
                0 <= j < old(self).pending@.len() + 1 implies tag_from(
                self.next_id,
                (#[trigger] old(self).pending@.push(tag)[j])@,
            ) by {
                if j < old(self).pending@.len() {
                    assert(old(self).pending@.push(tag)[j] == old(self).pending@[j]);
                    assert(tag_from((self.next_id - 1) as u64, old(self).pending@[j]@));
                    let m = choose|m: nat|
                        m < (self.next_id - 1) as u64 && old(self).pending@[j]@ == tag_str(m);
                    assert(m < self.next_id && old(self).pending@[j]@ == tag_str(m));
                } else {
                    assert(old(self).pending@.push(tag)[j] == tag);
                    assert(((self.next_id - 1) as nat) < self.next_id);
                }
            }
        }
        self.pending.push(tag);
        proof {
            assert(self.pending.deep_view() =~= old(self).pending.deep_view().push(tag@));
        }
    }

    /// Claims the completion for an inbound tag: removes it from the
    /// correlation table when it is outstanding. A tag that is absent,
    /// or was already claimed, finds nothing, so a reply is delivered
    /// at most once and an orphaned reply is dropped.
    pub fn complete(&mut self, tag: &str) -> (r: bool)
        requires
            old(self).inv(),
        ensures
            final(self).inv(),
            r == (find_tag(old(self).pending.deep_view(), tag@) >= 0),
            r ==> final(self).pending.deep_view() == old(self).pending.deep_view().remove(
                find_tag(old(self).pending.deep_view(), tag@),
            ),
            !r ==> final(self).pending.deep_view() == old(self).pending.deep_view(),
            final(self).next_id == old(self).next_id,
            final(self).packets_sent == old(self).packets_sent,
            final(self).session == old(self).session,
    {
        let ghost tags = self.pending.deep_view();
        let mut i: usize = 0;
        while i < self.pending.len()
            invariant
                0 <= i <= self.pending@.len(),
                tags == self.pending.deep_view(),
                *self == *old(self),
                old(self).inv(),
                forall|j: int| 0 <= j < i ==> tags[j] != tag@,
            decreases self.pending@.len() - i,
        {
            proof {
                assert(self.pending.deep_view()[i as int] == self.pending@[i as int]@);
            }
            if str_eq(self.pending[i].as_str(), tag) {
                proof {
                    lemma_find_tag_of(tags, tag@, i as int);
                }
                self.pending.remove(i);
                proof {
                    assert(self.pending.deep_view() =~= tags.remove(i as int));
                    let newtags = self.pending.deep_view();
                    assert forall|j: int|
                        0 <= j < self.pending@.len() implies tag_from(
                        self.next_id,
                        (#[trigger] self.pending@[j])@,
                    ) by {
                        if j < i {
                            assert(old(self).pending@[j] == self.pending@[j]);
                            assert(tag_from(old(self).next_id, old(self).pending@[j]@));
                        } else {
                            assert(old(self).pending@[j + 1] == self.pending@[j]);
                            assert(tag_from(old(self).next_id, old(self).pending@[j + 1]@));
                        }
                    }
                    assert forall|p: int, q: int|
                        0 <= p < q < newtags.len() implies newtags[p] != newtags[q] by {
                        if q < i {
                            assert(newtags[p] == tags[p] && newtags[q] == tags[q]);
                        } else if p < i {
                            assert(newtags[p] == tags[p] && newtags[q] == tags[q + 1]);
                        } else {
                            assert(newtags[p] == tags[p + 1] && newtags[q] == tags[q + 1]);
                        }
                    }
                }
                return true;
            }
            i += 1;
        }
        proof {
            lemma_find_tag_of(tags, tag@, tags.len() as int);
        }
        false
    }
}

} // verus!
