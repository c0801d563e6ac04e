//! The Cardholder Capability Container: a fixed 51-byte descriptor that
//! advertises a token's capabilities and carries its card identifier.
//!
//! | Offset | Length | Field                                   |
//! |--------|--------|-----------------------------------------|
//! | 0      | 9      | card identifier format header           |
//! | 9      | 14     | card identifier                         |
//! | 23     | 28     | capability tuples                       |

use vstd::prelude::*;
use crate::card_id::{CardId, CCCID_SIZE};
use crate::error::{CccError, TransportError};
use crate::ascii::{ascii_text, string_from_utf8};
use crate::hex::{hex_encode, hex_lower, lemma_hex_lower_is_ascii};
use crate::transaction::{Action, Event, Phase, Transaction};

verus! {

/// Size of a container in bytes.
pub const CCC_SIZE: usize = 51;

/// Offset of the card identifier inside a container.
pub const CCC_ID_OFFS: usize = 9;

/// Identifier of the container's slot in the token's object store.
pub const OBJ_CAPABILITY: u32 = 0x005f_c107;

/// The container template: every fixed field, with a zeroed card identifier.
///
/// `f0`: card identifier
///  - `a000000116`: GSC-IS RID
///  - `ff`: manufacturer id (dummy)
///  - `02`: card type (javaCard)
///  - next 14 bytes: card id
pub open spec fn template() -> Seq<u8> {
    seq![
        0xf0u8, 0x15, 0xa0, 0x00, 0x00, 0x01, 0x16, 0xff, 0x02, 0x00, 0x00, 0x00, 0x00, 0x00, 0x00, 0x00,
        0x00, 0x00, 0x00, 0x00, 0x00, 0x00, 0x00, 0xf1, 0x01, 0x21, 0xf2, 0x01, 0x21, 0xf3, 0x00, 0xf4,
        0x01, 0x00, 0xf5, 0x01, 0x10, 0xf6, 0x00, 0xf7, 0x00, 0xfa, 0x00, 0xfb, 0x00, 0xfc, 0x00, 0xfd,
        0x00, 0xfe, 0x00,
    ]
}

/// A fresh copy of the template.
pub fn ccc_template() -> (tmpl: [u8; CCC_SIZE])
    ensures
        tmpl@ == template(),
{
    let tmpl: [u8; CCC_SIZE] = [
        0xf0u8, 0x15, 0xa0, 0x00, 0x00, 0x01, 0x16, 0xff, 0x02, 0x00, 0x00, 0x00, 0x00, 0x00, 0x00, 0x00,
        0x00, 0x00, 0x00, 0x00, 0x00, 0x00, 0x00, 0xf1, 0x01, 0x21, 0xf2, 0x01, 0x21, 0xf3, 0x00, 0xf4,
        0x01, 0x00, 0xf5, 0x01, 0x10, 0xf6, 0x00, 0xf7, 0x00, 0xfa, 0x00, 0xfb, 0x00, 0xfc, 0x00, 0xfd,
        0x00, 0xfe, 0x00,
    ];
    assert(tmpl@ =~= template());
    tmpl
}

/// The card identifier field of a container: bytes 9 up to 23.
pub open spec fn extract(ccc: Seq<u8>) -> Seq<u8>
    recommends
        ccc.len() == CCC_SIZE,
{
    ccc.subrange(CCC_ID_OFFS as int, CCC_ID_OFFS + CCCID_SIZE)
}

/// The template with a card identifier in its field.
pub open spec fn embed(id: Seq<u8>) -> Seq<u8>
    recommends
        id.len() == CCCID_SIZE,
{
    template().subrange(0, CCC_ID_OFFS as int) + id + template().subrange(
        CCC_ID_OFFS + CCCID_SIZE,
        CCC_SIZE as int,
    )
}

/// The bytes that a write sends to the token: the template with its leading
/// 14 bytes replaced by the card identifier of the container. The identifier
/// lands at offset 0, not in the field at offset 9 from which it is read
/// back; whether the token expects it there has not been confirmed.
pub open spec fn write_image(ccc: Seq<u8>) -> Seq<u8>
    recommends
        ccc.len() == CCC_SIZE,
{
    extract(ccc) + template().subrange(CCCID_SIZE as int, CCC_SIZE as int)
}

/// The answers that a read can take in a given phase: the outcome of the
/// begin while idle, the outcome of the fetch while active, nothing once the
/// device is released.
pub open spec fn read_accepts(phase: Phase, event: Event) -> bool {
    ||| phase == Phase::Idle && event is Began
    ||| phase == Phase::Active && event is Fetched
}

/// The answers that a write can take in a given phase: the outcome of the
/// begin while idle, the outcome of the save while active, nothing once the
/// device is released.
pub open spec fn write_accepts(phase: Phase, event: Event) -> bool {
    ||| phase == Phase::Idle && event is Began
    ||| phase == Phase::Active && event is Saved
}

/// What a container is decoded to: the response itself when it has exactly
/// 51 bytes, `GenericError` for any other length.
pub open spec fn decoded(response: Seq<u8>, result: Result<CCC, CccError>) -> bool {
    if response.len() == CCC_SIZE {
        result is Ok && result->Ok_0@ == response
    } else {
        result == Err::<CCC, CccError>(CccError::GenericError)
    }
}

/// The phase that follows a device failure, and what the caller is told.
pub open spec fn aborted<T>(e: TransportError, next: Phase, action: Action<T>) -> bool {
    next == Phase::Aborted && action == Action::<T>::Release(Err(CccError::Transport(e)))
}

/// One step of a read: the next phase and what the caller has to do, for
/// each answer of the device.
pub open spec fn read_step(event: Event, next: Phase, action: Action<CCC>) -> bool {
    match event {
        Event::Began(Ok(_)) => next == Phase::Active && action == (Action::<CCC>::FetchObject {
            object_id: OBJ_CAPABILITY,
        }),
        Event::Began(Err(e)) => aborted(e, next, action),
        Event::Fetched(Ok(response)) => {
            &&& action is Release
            &&& decoded(response@, action->Release_0)
            &&& next == if response@.len() == CCC_SIZE {
                Phase::Committed
            } else {
                Phase::Aborted
            }
        },
        Event::Fetched(Err(e)) => aborted(e, next, action),
        Event::Saved(_) => false,
    }
}

/// One step of a write of the given container: the next phase and what the
/// caller has to do, for each answer of the device.
pub open spec fn write_step(ccc: Seq<u8>, event: Event, next: Phase, action: Action<()>) -> bool {
    match event {
        Event::Began(Ok(_)) => {
            &&& next == Phase::Active
            &&& action matches Action::SaveObject { object_id, data }
            &&& object_id == OBJ_CAPABILITY
            &&& data@ == write_image(ccc)
        },
        Event::Began(Err(e)) => aborted(e, next, action),
        Event::Saved(Ok(_)) => next == Phase::Committed && action == Action::<()>::Release(Ok(())),
        Event::Saved(Err(e)) => aborted(e, next, action),
        Event::Fetched(_) => false,
    }
}

/// The caller's explicit consent to the write path. Writing a container has
/// not been validated against real tokens, in particular the offset at which
/// the card identifier is written: whoever calls `CCC::set` says so by
/// handing over this value.
#[derive(Copy, Clone, Debug, PartialEq, Eq, Structural)]
pub struct Untested;

/// Cardholder Capability Container.
#[derive(Copy, Clone, Debug)]
pub struct CCC(pub [u8; CCC_SIZE]);

impl View for CCC {
    type V = Seq<u8>;

    open spec fn view(&self) -> Seq<u8> {
        self.0@
    }
}

impl CCC {
    /// Returns the card identifier component of the container. This cannot
    /// fail: the result is always `Ok`.
    pub fn cccid(&self) -> (result: Result<CardId, CccError>)
        ensures
            result is Ok,
            result->Ok_0@ == extract(self@),
    {
        let mut cccid = [0u8; CCCID_SIZE];
        let mut i: usize = 0;
        while i < CCCID_SIZE
            invariant
                i <= CCCID_SIZE,
                forall|k: int| 0 <= k < i ==> cccid@[k] == self.0@[CCC_ID_OFFS + k],
            decreases CCCID_SIZE - i,
        {
            cccid[i] = self.0[CCC_ID_OFFS + i];
            i += 1;
        }
        assert(cccid@ =~= extract(self@));
        Ok(CardId(cccid))
    }

    /// Decodes what the token returned for the container object. The response
    /// is taken whole or not at all: it is never truncated or padded.
    pub fn decode(response: &[u8]) -> (result: Result<CCC, CccError>)
        ensures
            decoded(response@, result),
    {
        if response.len() != CCC_SIZE {
            return Err(CccError::GenericError);
        }
        let mut ccc = [0u8; CCC_SIZE];
        let mut i: usize = 0;
        while i < CCC_SIZE
            invariant
                i <= CCC_SIZE,
                response@.len() == CCC_SIZE,
                forall|k: int| 0 <= k < i ==> ccc@[k] == response@[k],
            decreases CCC_SIZE - i,
        {
            ccc[i] = response[i];
            i += 1;
        }
        assert(ccc@ =~= response@);
        Ok(CCC(ccc))
    }

    /// Reads the container from the token, one device answer at a time.
    ///
    /// The caller begins a transaction on the device and reports the outcome
    /// as `Event::Began`. Once the transaction is active the library asks for
    /// the container object; the caller fetches it inside the transaction and
    /// reports `Event::Fetched`. The exchange ends with `Action::Release`: the
    /// container when the response has exactly 51 bytes, `GenericError` for
    /// any other length, and the driver's own error, unchanged, when the
    /// begin or the fetch failed.
    pub fn get(txn: &mut Transaction, event: Event) -> (action: Action<CCC>)
        requires
            read_accepts(old(txn).phase(), event),
        ensures
            read_step(event, final(txn).phase(), action),
    {
        match event {
            Event::Began(Ok(_)) => {
                txn.advance(Phase::Active);
                Action::FetchObject { object_id: OBJ_CAPABILITY }
            },
            Event::Fetched(Ok(response)) => {
                let result = CCC::decode(response.as_slice());
                match result {
                    Ok(_) => txn.advance(Phase::Committed),
                    Err(_) => txn.advance(Phase::Aborted),
                }
                Action::Release(result)
            },
            Event::Began(Err(e)) => {
                txn.advance(Phase::Aborted);
                Action::Release(Err(CccError::Transport(e)))
            },
            Event::Fetched(Err(e)) => {
                txn.advance(Phase::Aborted);
                Action::Release(Err(CccError::Transport(e)))
            },
            Event::Saved(_) => {
                Action::Release(Err(CccError::GenericError))
            },
        }
    }

    /// The bytes to save for this container.
    fn image(&self) -> (buf: Vec<u8>)
        ensures
            buf@ == write_image(self@),
    {
        let tmpl = ccc_template();
        let mut buf: Vec<u8> = Vec::with_capacity(CCC_SIZE);
        let mut i: usize = 0;
        while i < CCC_SIZE
            invariant
                i <= CCC_SIZE,
                tmpl@ == template(),
                buf@.len() == i,
                forall|k: int| 0 <= k < i ==> buf@[k] == write_image(self@)[k],
            decreases CCC_SIZE - i,
        {
            if i < CCCID_SIZE {
                buf.push(self.0[CCC_ID_OFFS + i]);
            } else {
                buf.push(tmpl[i]);
            }
            i += 1;
        }
        assert(buf@ =~= write_image(self@));
        buf
    }

    /// Writes a container for this card to the token, one device answer at a
    /// time. This path is unvalidated: the caller opts in with `Untested`.
    ///
    /// The caller begins a transaction on the device and reports the outcome
    /// as `Event::Began`. Once the transaction is active the library hands
    /// out the 51 bytes to save: a copy of the template whose first 14 bytes
    /// are the card identifier of this container. The caller saves them
    /// inside the transaction and reports `Event::Saved`. The exchange ends
    /// with `Action::Release`; a failure of the driver is passed on unchanged.
    pub fn set(&self, consent: Untested, txn: &mut Transaction, event: Event) -> (action: Action<()>)
        requires
            write_accepts(old(txn).phase(), event),
        ensures
            write_step(self@, event, final(txn).phase(), action),
    {
        match event {
            Event::Began(Ok(_)) => {
                txn.advance(Phase::Active);
                Action::SaveObject { object_id: OBJ_CAPABILITY, data: self.image() }
            },
            Event::Saved(Ok(_)) => {
                txn.advance(Phase::Committed);
                Action::Release(Ok(()))
            },
            Event::Began(Err(e)) => {
                txn.advance(Phase::Aborted);
                Action::Release(Err(CccError::Transport(e)))
            },
            Event::Saved(Err(e)) => {
                txn.advance(Phase::Aborted);
                Action::Release(Err(CccError::Transport(e)))
            },
            Event::Fetched(_) => {
                Action::Release(Err(CccError::GenericError))
            },
        }
    }

    /// Builds the container for a card: the template with the card identifier
    /// in its field at offset 9. No byte outside that field differs from the
    /// template.
    pub fn build(card_id: &CardId) -> (ccc: CCC)
        ensures
            ccc@ == embed(card_id@),
    {
        let mut buf = ccc_template();
        let mut i: usize = 0;
        while i < CCCID_SIZE
            invariant
                i <= CCCID_SIZE,
                buf@.len() == CCC_SIZE,
                forall|k: int| 0 <= k < CCC_ID_OFFS ==> buf@[k] == template()[k],
                forall|k: int| 0 <= k < i ==> buf@[CCC_ID_OFFS + k] == card_id.0@[k],
                forall|k: int| CCC_ID_OFFS + CCCID_SIZE <= k < CCC_SIZE ==> buf@[k] == template()[k],
            decreases CCCID_SIZE - i,
        {
            buf[CCC_ID_OFFS + i] = card_id.0[i];
            i += 1;
        }
        assert(buf@ =~= embed(card_id@));
        CCC(buf)
    }

    /// Renders the container for logs: the lower-case hexadecimal encoding of
    /// its 51 raw bytes, 102 characters with no separators.
    pub fn to_string(&self) -> (text: String)
        ensures
            text@ == ascii_text(hex_lower(self@)),
            text@.len() == 2 * CCC_SIZE,
    {
        let encoded = hex_encode(self.0.as_slice());
        proof {
            lemma_hex_lower_is_ascii(self@);
        }
        match string_from_utf8(encoded) {
            Ok(text) => text,
            // Never taken: hexadecimal digits are ASCII.
            Err(_) => String::new(),
        }
    }
}

} // verus!
