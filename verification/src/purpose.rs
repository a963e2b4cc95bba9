//! Protocol-stage inference: which step of the exchange protocol an outgoing
//! slate represents, read off from how many participants have signed.
use vstd::prelude::*;

verus! {

/// The protocol-stage tag embedded in an outgoing envelope. Only these
/// three stages are ever chosen by this core; every flow it does not
/// recognise falls back to `FullSlate`.
#[derive(Clone, Copy, Debug, PartialEq, Eq, Structural)]
pub enum ProtocolStage {
    /// First message from the initiator: no participant has signed yet.
    SendInitial,
    /// The counterparty's reply: exactly one participant has signed.
    SendResponse,
    /// Finalized, multi-party, or any other flow.
    FullSlate,
}

/// The slate state this core reads: the declared participant count and,
/// for each participant record present, whether it carries a partial
/// signature. The caller builds it from the slate the outside codec parsed.
pub struct SlateSignState {
    /// The slate's declared number of participants.
    pub num_participants: u8,
    /// One entry per participant record, true when that record carries a
    /// partial signature.
    pub sig_present: Vec<bool>,
}

/// How many entries of `flags` are set.
pub open spec fn count_sigs(flags: Seq<bool>) -> int
    decreases flags.len(),
{
    if flags.len() == 0 {
        0
    } else {
        count_sigs(flags.drop_last()) + if flags.last() { 1int } else { 0int }
    }
}

/// The stage chosen for a slate with `num_participants` declared
/// participants and signature flags `flags`: the two-party heuristic when it
/// applies, `FullSlate` otherwise.
pub open spec fn stage_for(num_participants: int, flags: Seq<bool>) -> ProtocolStage {
    if num_participants == 2 && flags.len() > 0 {
        if count_sigs(flags) == 0 {
            ProtocolStage::SendInitial
        } else if count_sigs(flags) == 1 {
            ProtocolStage::SendResponse
        } else {
            ProtocolStage::FullSlate
        }
    } else {
        ProtocolStage::FullSlate
    }
}

/// Chooses the protocol stage for an outgoing slate from its signature
/// state: with exactly two declared participants and at least one record,
/// zero partial signatures mean the initial send, one means the response,
/// and anything else - like any other participant configuration - means a
/// full slate.
pub fn infer_slate_purpose(state: &SlateSignState) -> (r: ProtocolStage)
    ensures
        r == stage_for(state.num_participants as int, state.sig_present@),
{
    let n = state.sig_present.len();
    if state.num_participants == 2 && n > 0 {
        let mut count: usize = 0;
        let mut i: usize = 0;
        while i < n
            invariant
                n == state.sig_present@.len(),
                i <= n,
                count <= i,
                count == count_sigs(state.sig_present@.take(i as int)),
            decreases n - i,
        {
            proof {
                assert(state.sig_present@.take(i as int + 1).drop_last() =~= state.sig_present@.take(
                    i as int,
                ));
            }
            if state.sig_present[i] {
                count = count + 1;
            }
            i = i + 1;
        }
        proof {
            assert(state.sig_present@.take(n as int) =~= state.sig_present@);
        }
        if count == 0 {
            ProtocolStage::SendInitial
        } else if count == 1 {
            ProtocolStage::SendResponse
        } else {
            ProtocolStage::FullSlate
        }
    } else {
        ProtocolStage::FullSlate
    }
}

/// Stage inference is deterministic in the signature state: for a
/// two-participant slate with at least one record, zero partial signatures
/// give `SendInitial`, exactly one gives `SendResponse`, two or more give
/// `FullSlate`; and with any other declared participant count the stage is
/// `FullSlate` whatever the signatures say.
pub proof fn lemma_stage_cases(num_participants: int, flags: Seq<bool>)
    ensures
        num_participants == 2 && flags.len() > 0 && count_sigs(flags) == 0 ==> stage_for(
            num_participants,
            flags,
        ) == ProtocolStage::SendInitial,
        num_participants == 2 && flags.len() > 0 && count_sigs(flags) == 1 ==> stage_for(
            num_participants,
            flags,
        ) == ProtocolStage::SendResponse,
        num_participants == 2 && flags.len() > 0 && count_sigs(flags) >= 2 ==> stage_for(
            num_participants,
            flags,
        ) == ProtocolStage::FullSlate,
        num_participants != 2 ==> stage_for(num_participants, flags) == ProtocolStage::FullSlate,
        flags.len() == 0 ==> stage_for(num_participants, flags) == ProtocolStage::FullSlate,
{
}

} // verus!
