//! VoIP: call states, contacts and the SIP/SDP values the calling code uses.

use vstd::prelude::*;
use crate::text::{contains_seq, contains_str, decimal, decimal_string, lower_of, lowercase, str_eq};

verus! {

/// VoIP configuration.
#[derive(Debug, Clone)]
pub struct VoIPConfig {
    pub sip_server: String,
    pub sip_port: u16,
    pub username: String,
    pub password: String,
    pub display_name: String,
    pub stun_server: Option<String>,
    pub auto_answer: bool,
    pub record_calls: bool,
    pub echo_cancellation: bool,
    pub noise_suppression: bool,
}

#[derive(Debug, Clone, Copy, PartialEq, Eq, Structural)]
pub enum CallState {
    Idle,
    Dialing,
    Ringing,
    Connected,
    OnHold,
    Ended,
    Failed,
}

#[derive(Debug, Clone, Copy, PartialEq, Eq, Structural)]
pub enum CallDirection {
    Inbound,
    Outbound,
}

#[derive(Debug, Clone, Copy, PartialEq, Eq, Structural)]
pub enum CallOutcome {
    Completed,
    Missed,
    Declined,
    Failed,
    Voicemail,
}

#[derive(Debug, Clone, Copy, PartialEq, Eq, Structural)]
pub enum VoIPState {
    Disconnected,
    Connecting,
    Registered,
    InCall,
    Error,
}

/// Call priority, ordered from `Low` to `Urgent`.
#[derive(Debug, Clone, Copy, PartialEq, Eq, Structural, PartialOrd, Ord)]
pub enum CallPriority {
    Low,
    Normal,
    High,
    Urgent,
}

#[derive(Debug, Clone)]
pub struct PhoneNumber {
    pub number: String,
    pub label: PhoneLabel,
    pub is_primary: bool,
}

#[derive(Debug, Clone, Copy, PartialEq, Eq, Structural)]
pub enum PhoneLabel {
    Mobile,
    Work,
    Home,
    Other,
}

/// Audio device information.
#[derive(Debug, Clone)]
pub struct AudioDevice {
    pub id: String,
    pub name: String,
    pub is_input: bool,
    pub is_default: bool,
}

/// SIP request methods.
#[derive(Debug, Clone, Copy, PartialEq, Eq, Structural)]
pub enum SipMethod {
    Invite,
    Ack,
    Bye,
    Cancel,
    Register,
    Options,
    Info,
    Update,
    Refer,
    Message,
}

/// A SIP response code and its reason phrase.
#[derive(Debug, Clone, Copy)]
pub struct SipResponse {
    pub code: u16,
    pub reason: &'static str,
}

/// A SIP URI.
#[derive(Debug, Clone)]
pub struct SipUri {
    pub scheme: String,
    pub user: Option<String>,
    pub host: String,
    pub port: Option<u16>,
    pub parameters: Vec<(String, String)>,
}

/// The text of a SIP URI: `scheme:`, then `user@` if any, the host, and
/// `:port` if any.
pub open spec fn sip_uri_text(u: SipUri) -> Seq<char> {
    u.scheme@ + ":"@ + match u.user {
        Some(user) => user@ + "@"@,
        None => Seq::empty(),
    } + u.host@ + match u.port {
        Some(p) => ":"@ + decimal(p as nat),
        None => Seq::empty(),
    }
}

impl SipUri {
    /// The `sip:` URI of `user` at `host`, with no port or parameters.
    pub fn new(user: &str, host: &str) -> (r: Self)
        ensures
            r.scheme@ == "sip"@,
            r.user matches Some(u) && u@ == user@,
            r.host@ == host@,
            r.port is None,
            r.parameters@.len() == 0,
    {
        SipUri {
            scheme: "sip".to_owned(),
            user: Some(user.to_owned()),
            host: host.to_owned(),
            port: None,
            parameters: Vec::new(),
        }
    }

    /// The URI as text.
    pub fn to_string(&self) -> (r: String)
        ensures
            r@ == sip_uri_text(*self),
    {
        let mut uri = self.scheme.clone();
        uri.append(":");
        match &self.user {
            Some(user) => {
                uri.append(user.as_str());
                uri.append("@");
            },
            None => {},
        }
        uri.append(self.host.as_str());
        match self.port {
            Some(p) => {
                uri.append(":");
                let d = decimal_string(p as u128);
                uri.append(d.as_str());
            },
            None => {},
        }
        proof {
            assert(uri@ =~= sip_uri_text(*self));
        }
        uri
    }
}

/// A session description.
#[derive(Debug, Clone)]
pub struct SdpSession {
    pub version: u32,
    pub origin: String,
    pub session_name: String,
    pub media: Vec<SdpMedia>,
}

#[derive(Debug, Clone)]
pub struct SdpMedia {
    pub media_type: MediaType,
    pub port: u16,
    pub protocol: String,
    pub formats: Vec<String>,
    pub attributes: Vec<(String, String)>,
}

#[derive(Debug, Clone, Copy, PartialEq, Eq, Structural)]
pub enum MediaType {
    Audio,
    Video,
    Application,
}

/// The ASCII digits of `s`, in order.
pub open spec fn digits_of(s: Seq<char>) -> Seq<char>
    decreases s.len(),
{
    if s.len() == 0 {
        Seq::empty()
    } else {
        digits_of(s.drop_last()) + if '0' <= s.last() <= '9' {
            seq![s.last()]
        } else {
            Seq::empty()
        }
    }
}

/// A phone number reduced to its digits, for comparison.
pub fn normalize_number(number: &str) -> (r: String)
    ensures
        r@ == digits_of(number@),
{
    let n = number.unicode_len();
    let mut out = String::new();
    let mut i: usize = 0;
    while i < n
        invariant
            n == number@.len(),
            i <= n,
            out@ == digits_of(number@.subrange(0, i as int)),
        decreases n - i,
    {
        let c = number.get_char(i);
        assert(number@.subrange(0, i + 1).drop_last() =~= number@.subrange(0, i as int));
        if '0' <= c && c <= '9' {
            let piece = number.substring_char(i, i + 1);
            assert(piece@ =~= seq![c]);
            out.append(piece);
        }
        i = i + 1;
    }
    assert(number@.subrange(0, n as int) =~= number@);
    out
}

/// A call waiting in a queue. Times are in seconds since the Unix epoch.
#[derive(Debug, Clone)]
pub struct QueuedCall {
    pub id: String,
    pub caller_number: String,
    pub caller_name: Option<String>,
    pub queue_name: String,
    pub queued_at: i64,
    pub priority: CallPriority,
    pub reason: Option<String>,
    pub assigned_worker: Option<String>,
}

/// The rank of a priority: higher is served first.
pub open spec fn rank(p: CallPriority) -> nat {
    match p {
        CallPriority::Low => 0,
        CallPriority::Normal => 1,
        CallPriority::High => 2,
        CallPriority::Urgent => 3,
    }
}

fn rank_of(p: CallPriority) -> (r: u8)
    ensures
        r as nat == rank(p),
{
    match p {
        CallPriority::Low => 0,
        CallPriority::Normal => 1,
        CallPriority::High => 2,
        CallPriority::Urgent => 3,
    }
}

impl QueuedCall {
    /// A call of normal priority from `caller_number`, queued at `now`.
    pub fn new(id: &str, caller_number: &str, queue_name: &str, now: i64) -> (r: Self)
        ensures
            r.id@ == id@,
            r.caller_number@ == caller_number@,
            r.queue_name@ == queue_name@,
            r.queued_at == now,
            r.priority == CallPriority::Normal,
            r.caller_name is None,
            r.reason is None,
            r.assigned_worker is None,
    {
        QueuedCall {
            id: id.to_owned(),
            caller_number: caller_number.to_owned(),
            caller_name: None,
            queue_name: queue_name.to_owned(),
            queued_at: now,
            priority: CallPriority::Normal,
            reason: None,
            assigned_worker: None,
        }
    }

    /// Seconds the call has waited at `now`.
    pub fn wait_time_seconds(&self, now: i64) -> (r: i64)
        requires
            i64::MIN <= now - self.queued_at <= i64::MAX,
        ensures
            r == now - self.queued_at,
    {
        now - self.queued_at
    }
}

/// The call is assigned to the worker `w`.
pub open spec fn assigned_to(c: QueuedCall, w: Seq<char>) -> bool {
    c.assigned_worker matches Some(x) && x@ == w
}

/// The calls are ordered by priority, highest first.
pub open spec fn by_priority(calls: Seq<QueuedCall>) -> bool {
    forall|i: int, j: int| 0 <= i < j < calls.len() ==> rank(calls[i].priority) >= rank(
        calls[j].priority,
    )
}

/// Where a call of rank `r` goes: before the first call of lower rank.
pub open spec fn insert_position(calls: Seq<QueuedCall>, r: nat) -> int
    decreases calls.len(),
{
    if calls.len() == 0 {
        0
    } else if rank(calls.last().priority) < r {
        insert_position(calls.drop_last(), r)
    } else {
        calls.len() as int
    }
}

/// A queue of calls served by priority, first come first served within a
/// priority.
pub struct CallQueue {
    name: String,
    calls: Vec<QueuedCall>,
    max_size: usize,
    /// Seconds.
    max_wait_time: i64,
}

impl CallQueue {
    /// The waiting calls, in the order they will be served.
    pub closed spec fn waiting(&self) -> Seq<QueuedCall> {
        self.calls@
    }

    pub open spec fn wf(&self) -> bool {
        by_priority(self.waiting())
    }

    pub closed spec fn queue_name(&self) -> Seq<char> {
        self.name@
    }

    pub closed spec fn capacity(&self) -> usize {
        self.max_size
    }

    pub closed spec fn max_wait(&self) -> i64 {
        self.max_wait_time
    }

    /// An empty queue that holds at most `max_size` calls.
    pub fn new(name: &str, max_size: usize) -> (r: Self)
        ensures
            r.wf(),
            r.queue_name() == name@,
            r.capacity() == max_size,
            r.max_wait() == 300,
            r.waiting().len() == 0,
    {
        CallQueue { name: name.to_owned(), calls: Vec::new(), max_size, max_wait_time: 300 }
    }

    /// Adds a call behind every call of the same or higher priority; fails
    /// when the queue is full.
    pub fn enqueue(&mut self, call: QueuedCall) -> (r: Result<(), String>)
        requires
            old(self).wf(),
        ensures
            final(self).wf(),
            final(self).capacity() == old(self).capacity(),
            old(self).waiting().len() >= old(self).capacity() ==> r is Err && final(self).waiting()
                == old(self).waiting(),
            old(self).waiting().len() < old(self).capacity() ==> r is Ok && final(self).waiting()
                == old(self).waiting().insert(
                insert_position(old(self).waiting(), rank(call.priority)),
                call,
            ),
    {
        if self.calls.len() >= self.max_size {
            return Err("Queue is full".to_owned());
        }
        let r = rank_of(call.priority);
        let ghost s = self.calls@;
        let mut pos: usize = 0;
        while pos < self.calls.len() && rank_of(self.calls[pos].priority) >= r
            invariant
                s == self.calls@,
                by_priority(s),
                pos <= s.len(),
                forall|j: int| 0 <= j < pos ==> rank(#[trigger] s[j].priority) >= r,
            decreases s.len() - pos,
        {
            pos = pos + 1;
        }
        proof {
            lemma_insert_position(s, r as nat, pos as int);
        }
        let ghost c = call;
        self.calls.insert(pos, call);
        proof {
            let t = self.calls@;
            assert(t == s.insert(pos as int, c));
            assert forall|i: int, j: int| 0 <= i < j < t.len() implies rank(t[i].priority) >= rank(
                t[j].priority,
            ) by {
                if j < pos {
                } else if j == pos {
                } else if i < pos {
                    assert(t[j] == s[j - 1]);
                    if pos < s.len() {
                        assert(rank(s[pos as int].priority) < r);
                    }
                } else if i == pos {
                    assert(t[j] == s[j - 1]);
                } else {
                    assert(t[i] == s[i - 1] && t[j] == s[j - 1]);
                }
            }
        }
        Ok(())
    }

    /// Takes the next call to serve.
    pub fn dequeue(&mut self) -> (r: Option<QueuedCall>)
        requires
            old(self).wf(),
        ensures
            final(self).wf(),
            final(self).capacity() == old(self).capacity(),
            old(self).waiting().len() == 0 ==> r is None && final(self).waiting() == old(self).waiting(),
            old(self).waiting().len() > 0 ==> r == Some(old(self).waiting()[0]) && final(self).waiting() == old(self).waiting().drop_first(),
    {
        if self.calls.len() == 0 {
            return None;
        }
        let c = self.calls.remove(0);
        assert(self.calls@ =~= old(self).calls@.drop_first());
        Some(c)
    }

    /// The next call to serve, left in the queue.
    pub fn peek(&self) -> (r: Option<&QueuedCall>)
        ensures
            self.waiting().len() == 0 ==> r is None,
            self.waiting().len() > 0 ==> r == Some(&self.waiting()[0]),
    {
        if self.calls.len() == 0 {
            None
        } else {
            Some(&self.calls[0])
        }
    }

    /// Removes the first call whose id is `call_id`.
    pub fn remove(&mut self, call_id: &str) -> (r: Option<QueuedCall>)
        requires
            old(self).wf(),
        ensures
            final(self).wf(),
            final(self).capacity() == old(self).capacity(),
            r is None ==> final(self).waiting() == old(self).waiting() && forall|i: int|
                0 <= i < old(self).waiting().len() ==> (#[trigger] old(self).waiting()[i]).id@
                    != call_id@,
            r matches Some(c) ==> exists|p: int|
                0 <= p < old(self).waiting().len() && old(self).waiting()[p] == c && c.id@
                    == call_id@ && final(self).waiting() == old(self).waiting().remove(p) && forall|
                    i: int,
                |
                    0 <= i < p ==> (#[trigger] old(self).waiting()[i]).id@ != call_id@,
    {
        match find_call(&self.calls, call_id) {
            Some(i) => {
                let ghost s = self.calls@;
                let c = self.calls.remove(i);
                proof {
                    lemma_remove_keeps_order(s, i as int);
                }
                Some(c)
            },
            None => None,
        }
    }

    /// Records which worker takes the first call whose id is `call_id`;
    /// false when there is no such call.
    pub fn assign_to_worker(&mut self, call_id: &str, worker_id: &str) -> (r: bool)
        requires
            old(self).wf(),
        ensures
            final(self).wf(),
            final(self).capacity() == old(self).capacity(),
            final(self).waiting().len() == old(self).waiting().len(),
            r == exists|i: int|
                0 <= i < old(self).waiting().len() && (#[trigger] old(self).waiting()[i]).id@
                    == call_id@,
            forall|i: int|
                0 <= i < old(self).waiting().len() ==> {
                    let o = #[trigger] old(self).waiting()[i];
                    let n = final(self).waiting()[i];
                    &&& n.id == o.id
                    &&& n.priority == o.priority
                    &&& n.caller_number == o.caller_number
                    &&& n.queued_at == o.queued_at
                    &&& (n.assigned_worker != o.assigned_worker ==> o.id@ == call_id@)
                },
            r ==> exists|i: int|
                0 <= i < old(self).waiting().len() && (#[trigger] final(self).waiting()[i]).id@
                    == call_id@ && assigned_to(final(self).waiting()[i], worker_id@),
    {
        match find_call(&self.calls, call_id) {
            Some(i) => {
                let ghost s = self.calls@;
                let mut c = self.calls.remove(i);
                c.assigned_worker = Some(worker_id.to_owned());
                self.calls.insert(i, c);
                proof {
                    let t = self.calls@;
                    assert(t =~= s.update(i as int, t[i as int]));
                    lemma_update_keeps_order(s, i as int, t[i as int]);
                    assert(t[i as int].id@ == call_id@);
                }
                true
            },
            None => false,
        }
    }

    /// The waiting calls, in the order they will be served.
    pub fn get_all(&self) -> (r: &Vec<QueuedCall>)
        ensures
            r@ == self.waiting(),
    {
        &self.calls
    }

    pub fn size(&self) -> (r: usize)
        ensures
            r == self.waiting().len(),
    {
        self.calls.len()
    }

    pub fn is_empty(&self) -> (r: bool)
        ensures
            r == (self.waiting().len() == 0),
    {
        self.calls.len() == 0
    }
}

/// The position of the first call whose id is `id`.
fn find_call(calls: &Vec<QueuedCall>, id: &str) -> (r: Option<usize>)
    ensures
        r matches Some(i) ==> i < calls@.len() && calls@[i as int].id@ == id@ && forall|j: int|
            0 <= j < i ==> (#[trigger] calls@[j]).id@ != id@,
        r is None ==> forall|j: int| 0 <= j < calls@.len() ==> (#[trigger] calls@[j]).id@ != id@,
{
    let mut i: usize = 0;
    while i < calls.len()
        invariant
            i <= calls@.len(),
            forall|j: int| 0 <= j < i ==> (#[trigger] calls@[j]).id@ != id@,
        decreases calls@.len() - i,
    {
        if str_eq(calls[i].id.as_str(), id) {
            return Some(i);
        }
        i = i + 1;
    }
    None
}

proof fn lemma_remove_keeps_order(s: Seq<QueuedCall>, p: int)
    requires
        by_priority(s),
        0 <= p < s.len(),
    ensures
        by_priority(s.remove(p)),
{
    let t = s.remove(p);
    assert forall|a: int, b: int| 0 <= a < b < t.len() implies rank(t[a].priority) >= rank(
        t[b].priority,
    ) by {
        let a2 = if a < p { a } else { a + 1 };
        let b2 = if b < p { b } else { b + 1 };
        assert(t[a] == s[a2] && t[b] == s[b2]);
    }
}

proof fn lemma_update_keeps_order(s: Seq<QueuedCall>, p: int, c: QueuedCall)
    requires
        by_priority(s),
        0 <= p < s.len(),
        c.priority == s[p].priority,
    ensures
        by_priority(s.update(p, c)),
{
    let t = s.update(p, c);
    assert forall|a: int, b: int| 0 <= a < b < t.len() implies rank(t[a].priority) >= rank(
        t[b].priority,
    ) by {
        assert(t[a].priority == s[a].priority && t[b].priority == s[b].priority);
    }
}

proof fn lemma_insert_position(s: Seq<QueuedCall>, r: nat, pos: int)
    requires
        by_priority(s),
        0 <= pos <= s.len(),
        forall|j: int| 0 <= j < pos ==> rank(#[trigger] s[j].priority) >= r,
        pos < s.len() ==> rank(s[pos].priority) < r,
    ensures
        insert_position(s, r) == pos,
    decreases s.len(),
{
    if s.len() == 0 {
    } else if pos == s.len() {
        assert(rank(s[s.len() - 1].priority) >= r);
    } else {
        assert(rank(s.last().priority) < r);
        let t = s.drop_last();
        assert forall|i: int, j: int| 0 <= i < j < t.len() implies rank(t[i].priority) >= rank(
            t[j].priority,
        ) by {
            assert(t[i] == s[i] && t[j] == s[j]);
        }
        if pos < t.len() {
            assert(t[pos] == s[pos]);
        }
        lemma_insert_position(t, r, pos);
    }
}

/// The first position of `x` in `s`.
pub open spec fn index_of(s: Seq<Seq<char>>, x: Seq<char>) -> Option<int> {
    if s.contains(x) {
        Some(choose|i: int| 0 <= i < s.len() && s[i] == x && forall|j: int| 0 <= j < i ==> s[j] != x)
    } else {
        None
    }
}

/// A position holding `x` with no `x` before it is the first position of `x`.
pub proof fn lemma_index_of(s: Seq<Seq<char>>, x: Seq<char>, i: int)
    requires
        0 <= i < s.len(),
        s[i] == x,
        forall|j: int| 0 <= j < i ==> s[j] != x,
    ensures
        index_of(s, x) == Some(i),
{
    assert(s.contains(x));
    let k = choose|k: int| 0 <= k < s.len() && s[k] == x && forall|j: int| 0 <= j < k ==> s[j] != x;
    if k < i {
    } else if k > i {
        assert(s[i] != x);
    }
}

impl Default for VoIPConfig {
    /// A placeholder server on port 5060 with a public STUN server, echo
    /// cancellation and noise suppression on.
    fn default() -> (r: Self)
        ensures
            r.sip_server@ == "sip.example.com"@,
            r.sip_port == 5060,
            r.username@.len() == 0,
            r.password@.len() == 0,
            r.display_name@ == "Marshall User"@,
            r.stun_server matches Some(s) && s@ == "stun.l.google.com:19302"@,
            !r.auto_answer && !r.record_calls,
            r.echo_cancellation && r.noise_suppression,
    {
        VoIPConfig {
            sip_server: "sip.example.com".to_owned(),
            sip_port: 5060,
            username: String::new(),
            password: String::new(),
            display_name: "Marshall User".to_owned(),
            stun_server: Some("stun.l.google.com:19302".to_owned()),
            auto_answer: false,
            record_calls: false,
            echo_cancellation: true,
            noise_suppression: true,
        }
    }
}

/// A contact; times are seconds since the Unix epoch.
#[derive(Debug, Clone)]
pub struct Contact {
    pub id: String,
    pub name: String,
    pub phone_numbers: Vec<PhoneNumber>,
    pub email: Option<String>,
    pub company: Option<String>,
    pub notes: Option<String>,
    pub avatar_url: Option<String>,
    pub is_favorite: bool,
    pub tags: Vec<String>,
    pub created_at: i64,
    pub updated_at: i64,
}

/// The number to dial for a contact: the first primary one, else the first.
pub open spec fn primary_of(nums: Seq<PhoneNumber>) -> Option<Seq<char>> {
    if exists|i: int| 0 <= i < nums.len() && (#[trigger] nums[i]).is_primary {
        let i = choose|i: int|
            0 <= i < nums.len() && (#[trigger] nums[i]).is_primary && forall|j: int|
                0 <= j < i ==> !(#[trigger] nums[j]).is_primary;
        Some(nums[i].number@)
    } else if nums.len() > 0 {
        Some(nums[0].number@)
    } else {
        None
    }
}

impl Contact {
    /// A contact named `name`, created at `now`.
    pub fn new(id: &str, name: &str, now: i64) -> (r: Self)
        ensures
            r.id@ == id@,
            r.name@ == name@,
            r.phone_numbers@.len() == 0,
            r.email is None && r.company is None && r.notes is None && r.avatar_url is None,
            !r.is_favorite,
            r.tags@.len() == 0,
            r.created_at == now && r.updated_at == now,
    {
        Contact {
            id: id.to_owned(),
            name: name.to_owned(),
            phone_numbers: Vec::new(),
            email: None,
            company: None,
            notes: None,
            avatar_url: None,
            is_favorite: false,
            tags: Vec::new(),
            created_at: now,
            updated_at: now,
        }
    }

    /// Adds a phone number at `now`.
    pub fn add_phone(&mut self, number: &str, label: PhoneLabel, is_primary: bool, now: i64)
        ensures
            final(self).phone_numbers@.drop_last() == old(self).phone_numbers@,
            final(self).phone_numbers@.len() == old(self).phone_numbers@.len() + 1,
            final(self).phone_numbers@.last().number@ == number@,
            final(self).phone_numbers@.last().label == label,
            final(self).phone_numbers@.last().is_primary == is_primary,
            final(self).updated_at == now,
            final(self).id == old(self).id,
    {
        self.phone_numbers.push(PhoneNumber { number: number.to_owned(), label, is_primary });
        assert(self.phone_numbers@.drop_last() =~= old(self).phone_numbers@);
        self.updated_at = now;
    }

    /// The number to dial: the first primary one, else the first.
    pub fn primary_number(&self) -> (r: Option<&str>)
        ensures
            match r {
                Some(n) => primary_of(self.phone_numbers@) == Some(n@),
                None => primary_of(self.phone_numbers@) is None,
            },
    {
        let mut i: usize = 0;
        while i < self.phone_numbers.len()
            invariant
                i <= self.phone_numbers@.len(),
                forall|j: int| 0 <= j < i ==> !(#[trigger] self.phone_numbers@[j]).is_primary,
            decreases self.phone_numbers@.len() - i,
        {
            if self.phone_numbers[i].is_primary {
                proof {
                    let nums = self.phone_numbers@;
                    let k = choose|k: int|
                        0 <= k < nums.len() && (#[trigger] nums[k]).is_primary && forall|j: int|
                            0 <= j < k ==> !(#[trigger] nums[j]).is_primary;
                    if k < i {
                    } else if k > i {
                        assert(!nums[i as int].is_primary);
                    }
                }
                return Some(self.phone_numbers[i].number.as_str());
            }
            i = i + 1;
        }
        if self.phone_numbers.len() > 0 {
            Some(self.phone_numbers[0].number.as_str())
        } else {
            None
        }
    }
}

/// The contact carries the tag `tag`.
pub open spec fn has_tag(c: Contact, tag: Seq<char>) -> bool {
    exists|j: int| 0 <= j < c.tags@.len() && (#[trigger] c.tags@[j])@ == tag
}

/// Some number of the contact has the same digits as `digits`.
pub open spec fn has_number(c: Contact, digits: Seq<char>) -> bool {
    exists|i: int|
        0 <= i < c.phone_numbers@.len() && digits_of((#[trigger] c.phone_numbers@[i]).number@)
            == digits
}

/// The contact matches the lowercased query `q` (or the raw `query`, for
/// numbers) in its name, a number, its company or its email.
pub open spec fn contact_matches(c: Contact, query: Seq<char>, q: Seq<char>) -> bool {
    contains_seq(lower_of(c.name@), q) || (exists|i: int|
        0 <= i < c.phone_numbers@.len() && contains_seq(
            (#[trigger] c.phone_numbers@[i]).number@,
            query,
        )) || (c.company matches Some(co) && contains_seq(lower_of(co@), q)) || (
    c.email matches Some(e) && contains_seq(lower_of(e@), q))
}

pub open spec fn contact_values(s: Seq<&Contact>) -> Seq<Contact> {
    s.map_values(|c: &Contact| *c)
}

/// The contact book, in the order contacts were added; ids are distinct.
pub struct ContactManager {
    contacts: Vec<Contact>,
}

impl ContactManager {
    pub closed spec fn contacts(&self) -> Seq<Contact> {
        self.contacts@
    }

    pub fn new() -> (r: Self)
        ensures
            r.contacts().len() == 0,
    {
        ContactManager { contacts: Vec::new() }
    }

    fn index_by_id(&self, id: &str) -> (r: Option<usize>)
        ensures
            r matches Some(i) ==> i < self.contacts().len() && self.contacts()[i as int].id@ == id@,
            r is None ==> forall|j: int| 0 <= j < self.contacts().len() ==> (#[trigger] self.contacts()[j]).id@ != id@,
    {
        let mut i: usize = 0;
        while i < self.contacts.len()
            invariant
                i <= self.contacts@.len(),
                forall|j: int| 0 <= j < i ==> (#[trigger] self.contacts@[j]).id@ != id@,
            decreases self.contacts@.len() - i,
        {
            if str_eq(self.contacts[i].id.as_str(), id) {
                return Some(i);
            }
            i = i + 1;
        }
        None
    }

    /// Adds a contact, replacing one with the same id; returns the id.
    pub fn add(&mut self, contact: Contact) -> (r: String)
        ensures
            r@ == contact.id@,
            final(self).contacts().contains(contact),
            forall|c: Contact| #[trigger] old(self).contacts().contains(c) && c.id@ != contact.id@
                ==> final(self).contacts().contains(c),
            forall|c: Contact| #[trigger] final(self).contacts().contains(c) ==> c == contact
                || old(self).contacts().contains(c),
    {
        let id = contact.id.clone();
        let ghost cv = contact;
        match self.index_by_id(contact.id.as_str()) {
            Some(i) => {
                let ghost s = self.contacts@;
                self.contacts.set(i, contact);
                proof {
                    assert(self.contacts@[i as int] == cv);
                    assert forall|c: Contact| #[trigger] s.contains(c) && c.id@ != cv.id@ implies self.contacts@.contains(c) by {
                        let k = choose|k: int| 0 <= k < s.len() && s[k] == c;
                        assert(k != i);
                        assert(self.contacts@[k] == c);
                    }
                    assert forall|c: Contact| #[trigger] self.contacts@.contains(c) implies c == cv || s.contains(c) by {
                        let k = choose|k: int| 0 <= k < self.contacts@.len() && self.contacts@[k] == c;
                        if k != i {
                            assert(s[k] == c);
                        }
                    }
                }
            },
            None => {
                let ghost s = self.contacts@;
                self.contacts.push(contact);
                proof {
                    assert(self.contacts@[s.len() as int] == cv);
                    assert forall|c: Contact| #[trigger] s.contains(c) implies self.contacts@.contains(c) by {
                        let k = choose|k: int| 0 <= k < s.len() && s[k] == c;
                        assert(self.contacts@[k] == c);
                    }
                    assert forall|c: Contact| #[trigger] self.contacts@.contains(c) implies c == cv || s.contains(c) by {
                        let k = choose|k: int| 0 <= k < self.contacts@.len() && self.contacts@[k] == c;
                        if k < s.len() {
                            assert(s[k] == c);
                        }
                    }
                }
            },
        }
        proof {
            assert(id@ == cv.id@);
        }
        id
    }

    /// Removes the contact `id`, if present.
    pub fn remove(&mut self, id: &str) -> (r: Option<Contact>)
        ensures
            r matches Some(c) ==> c.id@ == id@ && old(self).contacts().contains(c),
            r is None ==> final(self).contacts() == old(self).contacts() && forall|j: int|
                0 <= j < old(self).contacts().len() ==> (#[trigger] old(self).contacts()[j]).id@ != id@,
            r is Some ==> exists|p: int|
                0 <= p < old(self).contacts().len() && final(self).contacts() == old(self).contacts().remove(p),
    {
        match self.index_by_id(id) {
            Some(i) => {
                let ghost s = self.contacts@;
                let c = self.contacts.remove(i);
                assert(s[i as int] == c);
                Some(c)
            },
            None => None,
        }
    }

    /// The contact `id`, if present.
    pub fn get(&self, id: &str) -> (r: Option<&Contact>)
        ensures
            r matches Some(c) ==> c.id@ == id@ && self.contacts().contains(*c),
            r is None ==> forall|j: int| 0 <= j < self.contacts().len() ==> (#[trigger] self.contacts()[j]).id@ != id@,
    {
        match self.index_by_id(id) {
            Some(i) => Some(&self.contacts[i]),
            None => None,
        }
    }

    /// The first contact with a number of the same digits as `number`.
    pub fn find_by_number(&self, number: &str) -> (r: Option<&Contact>)
        ensures
            r matches Some(c) ==> self.contacts().contains(*c) && has_number(*c, digits_of(number@)),
            r is None ==> forall|j: int| 0 <= j < self.contacts().len() ==> !has_number(#[trigger] self.contacts()[j], digits_of(number@)),
    {
        let normalized = normalize_number(number);
        let mut i: usize = 0;
        while i < self.contacts.len()
            invariant
                normalized@ == digits_of(number@),
                i <= self.contacts@.len(),
                forall|j: int| 0 <= j < i ==> !has_number(#[trigger] self.contacts@[j], normalized@),
            decreases self.contacts@.len() - i,
        {
            let c = &self.contacts[i];
            let mut k: usize = 0;
            while k < c.phone_numbers.len()
                invariant
                    normalized@ == digits_of(number@),
                    i < self.contacts@.len(),
                    *c == self.contacts@[i as int],
                    k <= c.phone_numbers@.len(),
                    forall|j: int| 0 <= j < k ==> digits_of((#[trigger] c.phone_numbers@[j]).number@) != normalized@,
                decreases c.phone_numbers@.len() - k,
            {
                let d = normalize_number(c.phone_numbers[k].number.as_str());
                if str_eq(d.as_str(), normalized.as_str()) {
                    assert(has_number(*c, normalized@));
                    assert(self.contacts@[i as int] == *c);
                    assert(self.contacts@.contains(*c));
                    return Some(c);
                }
                k = k + 1;
            }
            i = i + 1;
        }
        None
    }

    /// The contacts whose name, number, company or email matches the query,
    /// ignoring case except in numbers.
    pub fn search(&self, query: &str) -> (r: Vec<&Contact>)
        ensures
            forall|j: int| 0 <= j < r@.len() ==> self.contacts().contains(*r@[j]) && contact_matches(*r@[j], query@, lower_of(query@)),
            forall|j: int| 0 <= j < self.contacts().len() && contact_matches(#[trigger] self.contacts()[j], query@, lower_of(query@)) ==> contact_values(r@).contains(self.contacts()[j]),
    {
        let q = lowercase(query);
        let mut r: Vec<&Contact> = Vec::new();
        let mut i: usize = 0;
        while i < self.contacts.len()
            invariant
                q@ == lower_of(query@),
                i <= self.contacts@.len(),
                forall|j: int| 0 <= j < r@.len() ==> self.contacts@.contains(*r@[j]) && contact_matches(*r@[j], query@, q@),
                forall|j: int| 0 <= j < i && contact_matches(#[trigger] self.contacts@[j], query@, q@) ==> contact_values(r@).contains(self.contacts@[j]),
            decreases self.contacts@.len() - i,
        {
            let c = &self.contacts[i];
            if self.matches(c, query, q.as_str()) {
                let ghost before = r@;
                r.push(c);
                proof {
                    assert(contact_values(r@)[before.len() as int] == *c);
                    assert forall|j: int| 0 <= j < i && contact_matches(#[trigger] self.contacts@[j], query@, q@) implies contact_values(r@).contains(self.contacts@[j]) by {
                        let m = choose|m: int| 0 <= m < before.len() && #[trigger] contact_values(before)[m] == self.contacts@[j];
                        assert(contact_values(r@)[m] == self.contacts@[j]);
                    }
                }
            }
            i = i + 1;
        }
        r
    }

    fn matches(&self, c: &Contact, query: &str, q: &str) -> (r: bool)
        requires
            q@ == lower_of(query@),
        ensures
            r == contact_matches(*c, query@, q@),
    {
        let name = lowercase(c.name.as_str());
        if contains_str(name.as_str(), q) {
            return true;
        }
        let mut k: usize = 0;
        while k < c.phone_numbers.len()
            invariant
                k <= c.phone_numbers@.len(),
                forall|j: int| 0 <= j < k ==> !contains_seq((#[trigger] c.phone_numbers@[j]).number@, query@),
            decreases c.phone_numbers@.len() - k,
        {
            if contains_str(c.phone_numbers[k].number.as_str(), query) {
                return true;
            }
            k = k + 1;
        }
        let in_company = match &c.company {
            Some(co) => contains_str(lowercase(co.as_str()).as_str(), q),
            None => false,
        };
        if in_company {
            return true;
        }
        match &c.email {
            Some(e) => contains_str(lowercase(e.as_str()).as_str(), q),
            None => false,
        }
    }

    /// The favourite contacts, in order.
    pub fn favorites(&self) -> (r: Vec<&Contact>)
        ensures
            contact_values(r@) == self.contacts().filter(|c: Contact| c.is_favorite),
    {
        let mut r: Vec<&Contact> = Vec::new();
        let mut i: usize = 0;
        while i < self.contacts.len()
            invariant
                i <= self.contacts@.len(),
                contact_values(r@) == self.contacts@.subrange(0, i as int).filter(|c: Contact| c.is_favorite),
            decreases self.contacts@.len() - i,
        {
            proof {
                reveal(Seq::filter);
                assert(self.contacts@.subrange(0, i + 1).drop_last() =~= self.contacts@.subrange(0, i as int));
            }
            let ghost before = r@;
            if self.contacts[i].is_favorite {
                r.push(&self.contacts[i]);
                assert(contact_values(r@) =~= contact_values(before).push(self.contacts@[i as int]));
            }
            i = i + 1;
        }
        assert(self.contacts@.subrange(0, i as int) =~= self.contacts@);
        r
    }

    /// The contacts carrying `tag`, in order.
    pub fn by_tag(&self, tag: &str) -> (r: Vec<&Contact>)
        ensures
            contact_values(r@) == self.contacts().filter(|c: Contact| has_tag(c, tag@)),
    {
        let mut r: Vec<&Contact> = Vec::new();
        let mut i: usize = 0;
        while i < self.contacts.len()
            invariant
                i <= self.contacts@.len(),
                contact_values(r@) == self.contacts@.subrange(0, i as int).filter(
                    |c: Contact| has_tag(c, tag@),
                ),
            decreases self.contacts@.len() - i,
        {
            proof {
                reveal(Seq::filter);
                assert(self.contacts@.subrange(0, i + 1).drop_last() =~= self.contacts@.subrange(
                    0,
                    i as int,
                ));
            }
            let ghost before = r@;
            let c = &self.contacts[i];
            let mut k: usize = 0;
            let mut found = false;
            while k < c.tags.len()
                invariant
                    k <= c.tags@.len(),
                    found == exists|j: int| 0 <= j < k && (#[trigger] c.tags@[j])@ == tag@,
                decreases c.tags@.len() - k,
            {
                if str_eq(c.tags[k].as_str(), tag) {
                    found = true;
                }
                k = k + 1;
            }
            if found {
                r.push(c);
                assert(contact_values(r@) =~= contact_values(before).push(self.contacts@[i as int]));
            }
            i = i + 1;
        }
        assert(self.contacts@.subrange(0, i as int) =~= self.contacts@);
        r
    }

    pub fn count(&self) -> (r: usize)
        ensures
            r == self.contacts().len(),
    {
        self.contacts.len()
    }
}

} // verus!
