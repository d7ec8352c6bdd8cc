//! Identifiers and messages of the task-provisioning protocol.
use vstd::prelude::*;
use crate::outside::{prio_decode_u16, prio_encode_u16, push_char, u16_be_bytes, u16_from_be};
use crate::fixed::FixedAny;
use crate::hpke::HpkeConfig;
use std::cmp::Ordering;
use vstd::std_specs::cmp::PartialOrdSpecImpl;

verus! {

/// The character of a decimal digit `d` (which is below ten).
pub open spec fn digit_char(d: nat) -> char {
    ((48 + d) as u8) as char
}

/// The decimal representation of `n`, without leading zeros.
pub open spec fn decimal(n: nat) -> Seq<char>
    decreases n,
{
    if n < 10 {
        seq![digit_char(n)]
    } else {
        decimal(n / 10).push(digit_char(n % 10))
    }
}

/// `c` is one of the digits `0` to `9`.
pub open spec fn is_digit(c: char) -> bool {
    48 <= (c as u32) && (c as u32) <= 57
}

/// The number that the digits `s` denote, read as a decimal numeral, most
/// significant digit first.
pub open spec fn decimal_value(s: Seq<char>) -> nat
    decreases s.len(),
{
    if s.len() == 0 {
        0
    } else {
        decimal_value(s.drop_last()) * 10 + ((s.last() as u32) - 48) as nat
    }
}

/// `s` is a decimal numeral without leading zeros: at least one digit, all
/// of them digits, and a first digit `0` only in the numeral `0` itself.
pub open spec fn is_decimal_numeral(s: Seq<char>) -> bool {
    &&& s.len() >= 1
    &&& forall|i: int| 0 <= i < s.len() ==> #[trigger] is_digit(s[i])
    &&& (s[0] == '0' ==> s.len() == 1)
}

/// The decimal representation of `n` is a decimal numeral without leading
/// zeros that reads back as `n`, and it starts with `0` only where `n` is 0.
pub proof fn lemma_decimal_reads_back(n: nat)
    ensures
        is_decimal_numeral(decimal(n)),
        decimal_value(decimal(n)) == n,
        decimal(n)[0] == '0' <==> n == 0,
    decreases n,
{
    let s = decimal(n);
    if n < 10 {
        let c = digit_char(n);
        assert(c as u32 == 48 + n);
        assert(s.drop_last() =~= Seq::<char>::empty());
        assert(decimal_value(s.drop_last()) == 0);
        assert(decimal_value(s) == n);
    } else {
        let q = n / 10;
        let d = n % 10;
        lemma_decimal_reads_back(q);
        let t = decimal(q);
        assert(s == t.push(digit_char(d)));
        assert(s.drop_last() =~= t);
        assert(digit_char(d) as u32 == 48 + d);
        assert(s[0] == t[0]);
        assert forall|i: int| 0 <= i < s.len() implies #[trigger] is_digit(s[i]) by {
            if i < t.len() {
                assert(s[i] == t[i]);
            }
        }
        assert(s.last() == digit_char(d));
        assert(decimal_value(s) == decimal_value(t) * 10 + d);
        assert(q * 10 + d == n);
    }
}

/// Appends the decimal representation of `n` to `s`.
fn write_decimal(n: u16, s: &mut String)
    ensures
        final(s)@ == old(s)@ + decimal(n as nat),
    decreases n,
{
    if n >= 10 {
        write_decimal(n / 10, s);
    }
    let d: u8 = (n % 10) as u8;
    push_char(s, (48u8 + d) as char);
}

/// DPSA protocol message representing an identifier for a Training Session.
#[derive(Clone, Copy, Debug, Hash, PartialEq, Eq, Ord, Structural)]
pub struct TrainingSessionId(pub u16);

/// Session identifiers are ordered by their numbers, as the derived `Ord`
/// orders them.
impl PartialOrd for TrainingSessionId {
    fn partial_cmp(&self, other: &TrainingSessionId) -> (r: Option<Ordering>) {
        if self.0 < other.0 {
            Some(Ordering::Less)
        } else if self.0 > other.0 {
            Some(Ordering::Greater)
        } else {
            Some(Ordering::Equal)
        }
    }
}

impl PartialOrdSpecImpl for TrainingSessionId {
    open spec fn obeys_partial_cmp_spec() -> bool {
        true
    }

    open spec fn partial_cmp_spec(&self, other: &TrainingSessionId) -> Option<Ordering> {
        if self.0 < other.0 {
            Some(Ordering::Less)
        } else if self.0 > other.0 {
            Some(Ordering::Greater)
        } else {
            Some(Ordering::Equal)
        }
    }
}

impl View for TrainingSessionId {
    type V = u16;

    open spec fn view(&self) -> u16 {
        self.0
    }
}

impl From<u16> for TrainingSessionId {
    fn from(value: u16) -> (r: TrainingSessionId) {
        TrainingSessionId(value)
    }
}

impl vstd::std_specs::convert::FromSpecImpl<u16> for TrainingSessionId {
    open spec fn obeys_from_spec() -> bool {
        true
    }

    open spec fn from_spec(value: u16) -> TrainingSessionId {
        TrainingSessionId(value)
    }
}

impl From<TrainingSessionId> for u16 {
    fn from(id: TrainingSessionId) -> (r: u16) {
        id.0
    }
}

impl vstd::std_specs::convert::FromSpecImpl<TrainingSessionId> for u16 {
    open spec fn obeys_from_spec() -> bool {
        true
    }

    open spec fn from_spec(id: TrainingSessionId) -> u16 {
        id.0
    }
}

/// Errors in decoding protocol messages from bytes.
#[derive(Clone, Copy, Debug, PartialEq, Eq, Structural)]
pub enum MessageDecodeError {
    /// The input ended before the value was complete.
    UnexpectedEnd,
}

impl TrainingSessionId {
    /// The decimal representation of the identifier.
    pub fn to_string(&self) -> (r: String)
        ensures
            r@ == decimal(self.0 as nat),
            is_decimal_numeral(r@),
            decimal_value(r@) == self.0,
    {
        let mut s = String::new();
        write_decimal(self.0, &mut s);
        proof {
            lemma_decimal_reads_back(self.0 as nat);
            assert(s@ =~= decimal(self.0 as nat));
        }
        s
    }

    /// Appends the encoding of the identifier to `bytes`: the two bytes of the
    /// number, most significant first.
    pub fn encode(&self, bytes: &mut Vec<u8>)
        ensures
            final(bytes)@ == old(bytes)@ + u16_be_bytes(self.0),
    {
        let _ = prio_encode_u16(self.0, bytes);
    }

    /// Reads an identifier from `bytes` at position `*pos` and advances `*pos`
    /// past it. Fails, leaving `*pos` unchanged, when fewer than two bytes are
    /// left.
    pub fn decode(bytes: &[u8], pos: &mut usize) -> (r: Result<TrainingSessionId, MessageDecodeError>)
        ensures
            *old(pos) + 2 <= bytes@.len() ==> r == Ok::<TrainingSessionId, MessageDecodeError>(
                TrainingSessionId(u16_from_be(bytes@[*old(pos) as int], bytes@[*old(pos) + 1])),
            ) && *final(pos) == *old(pos) + 2,
            *old(pos) + 2 > bytes@.len() ==> r == Err::<TrainingSessionId, MessageDecodeError>(
                MessageDecodeError::UnexpectedEnd,
            ) && *final(pos) == *old(pos),
    {
        match prio_decode_u16(bytes, *pos) {
            Ok((v, p)) => {
                *pos = p;
                Ok(TrainingSessionId(v))
            },
            Err(_) => Err(MessageDecodeError::UnexpectedEnd),
        }
    }
}


/// DAP protocol message representing the role of a protocol participant.
#[derive(Clone, Copy, Debug, PartialEq, Eq, Structural)]
pub enum Role {
    Collector,
    Client,
    Leader,
    Helper,
}

/// DAP protocol message representing an identifier for a DAP task: 32 bytes.
#[derive(Clone, Copy, Debug)]
pub struct TaskId(pub [u8; 32]);

/// The addresses of both aggregators: their internal addresses, their task
/// servers and their main (DAP) endpoints, each as URL text.
#[derive(Debug)]
pub struct Locations {
    pub internal_leader: String,
    pub internal_helper: String,
    pub external_leader_tasks: String,
    pub external_helper_tasks: String,
    pub external_leader_main: String,
    pub external_helper_main: String,
}

impl Clone for Locations {
    fn clone(&self) -> (r: Self)
        ensures
            r.internal_leader@ == self.internal_leader@,
            r.internal_helper@ == self.internal_helper@,
            r.external_leader_tasks@ == self.external_leader_tasks@,
            r.external_helper_tasks@ == self.external_helper_tasks@,
            r.external_leader_main@ == self.external_leader_main@,
            r.external_helper_main@ == self.external_helper_main@,
    {
        Locations {
            internal_leader: self.internal_leader.clone(),
            internal_helper: self.internal_helper.clone(),
            external_leader_tasks: self.external_leader_tasks.clone(),
            external_helper_tasks: self.external_helper_tasks.clone(),
            external_leader_main: self.external_leader_main.clone(),
            external_helper_main: self.external_helper_main.clone(),
        }
    }
}

impl Locations {
    /// The main endpoints of the leader and of the helper, in that order.
    pub fn get_external_aggregator_endpoints(&self) -> (r: Vec<String>)
        ensures
            r@.len() == 2,
            r@[0]@ == self.external_leader_main@,
            r@[1]@ == self.external_helper_main@,
    {
        let mut r = Vec::new();
        r.push(self.external_leader_main.clone());
        r.push(self.external_helper_main.clone());
        r
    }
}

/// The main (DAP) endpoints of both aggregators, as URL text.
#[derive(Debug)]
pub struct MainLocations {
    pub external_leader: String,
    pub external_helper: String,
}

/// The task servers of both aggregators, as URL text.
#[derive(Debug)]
pub struct TasksLocations {
    pub external_leader: String,
    pub external_helper: String,
}

/// The parameters of the aggregation: the length of a gradient and the noise
/// parameter of the differential-privacy mechanism.
#[derive(Clone, Copy, Debug)]
pub struct VdafParameter {
    pub gradient_len: usize,
    pub noise_parameter: FixedAny,
}

//--- create training session ---

/// Asks a task server to create a training session.
#[derive(Debug)]
pub struct CreateTrainingSessionRequest {
    /// id if known
    pub training_session_id: Option<TrainingSessionId>,
    /// the main endpoints of both aggregators, as URL text
    pub leader_endpoint: String,
    pub helper_endpoint: String,
    /// the role of the aggregator that receives the request
    pub role: Role,
    pub num_gradient_entries: usize,
    /// needs to be the same for both aggregators (section 4.2 of ppm-draft); unpadded base64url
    pub verify_key_encoded: String,
    pub collector_hpke_config: HpkeConfig,
    /// auth tokens, in unpadded base64url
    pub collector_auth_token_encoded: String,
    pub leader_auth_token_encoded: String,
    /// noise parameter
    pub noise_parameter: FixedAny,
}

/// Answers a [`CreateTrainingSessionRequest`] with the session's identifier.
#[derive(Clone, Copy, Debug)]
pub struct CreateTrainingSessionResponse {
    pub training_session_id: TrainingSessionId,
}

//--- start training round ---

/// Asks a task server to start a round of a training session: to provision a
/// DAP task with the given identifier (unpadded base64url).
#[derive(Debug)]
pub struct StartRoundRequest {
    pub training_session_id: TrainingSessionId,
    pub task_id_encoded: String,
}

impl Clone for StartRoundRequest {
    fn clone(&self) -> (r: Self)
        ensures
            r.training_session_id == self.training_session_id,
            r.task_id_encoded@ == self.task_id_encoded@,
    {
        StartRoundRequest {
            training_session_id: self.training_session_id,
            task_id_encoded: self.task_id_encoded.clone(),
        }
    }
}

/// Answers a [`StartRoundRequest`].
#[derive(Clone, Copy, Debug)]
pub struct StartRoundResponse {}

//--- get vdaf parameter ---

/// Asks a task server for the aggregation parameters of a task (unpadded base64url).
#[derive(Debug)]
pub struct GetVdafParameterRequest {
    pub task_id_encoded: String,
}

/// Answers a [`GetVdafParameterRequest`].
#[derive(Clone, Copy, Debug)]
pub struct GetVdafParameterResponse {
    pub vdaf_parameter: VdafParameter,
}

} // verus!
