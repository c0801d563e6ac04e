//! What holds of the container layout and of the exchange with the token,
//! whatever the card identifier and whatever the device answers.

use vstd::prelude::*;
use crate::card_id::{CardId, CCCID_SIZE};
use crate::container::{
    embed, extract, read_accepts, read_step, template, write_accepts, write_image, write_step,
    CCC, CCC_ID_OFFS, CCC_SIZE,
};
use crate::error::{CccError, TransportError};
use crate::transaction::{Action, Event, Phase};

verus! {

/// True for the offsets of the fixed fields of a container: the header in
/// front of the card identifier and the capability tuples behind it.
pub open spec fn is_fixed_offset(k: int) -> bool {
    0 <= k < CCC_ID_OFFS || CCC_ID_OFFS + CCCID_SIZE <= k < CCC_SIZE
}

/// Round trip: a card identifier embedded in the template is the one that is
/// extracted again, the result has 51 bytes, and every byte outside the
/// identifier's field is the template's.
pub proof fn lemma_embed_extract_round_trip(c: CardId)
    ensures
        embed(c@).len() == CCC_SIZE,
        extract(embed(c@)) == c@,
        forall|k: int| is_fixed_offset(k) ==> embed(c@)[k] == template()[k],
{
    vstd::array::array_len_matches_n(&c.0);
    assert(extract(embed(c@)) =~= c@);
}

/// Containers built for different cards agree on every fixed field.
pub proof fn lemma_fixed_fields_shared(a: CardId, b: CardId)
    ensures
        forall|k: int| is_fixed_offset(k) ==> embed(a@)[k] == embed(b@)[k],
        embed(a@).subrange(0, CCC_ID_OFFS as int) == embed(b@).subrange(0, CCC_ID_OFFS as int),
        embed(a@).subrange(CCC_ID_OFFS + CCCID_SIZE, CCC_SIZE as int) == embed(b@).subrange(
            CCC_ID_OFFS + CCCID_SIZE,
            CCC_SIZE as int,
        ),
{
    lemma_embed_extract_round_trip(a);
    lemma_embed_extract_round_trip(b);
    assert(embed(a@).subrange(0, CCC_ID_OFFS as int) =~= embed(b@).subrange(
        0,
        CCC_ID_OFFS as int,
    ));
    assert(embed(a@).subrange(CCC_ID_OFFS + CCCID_SIZE, CCC_SIZE as int) =~= embed(b@).subrange(
        CCC_ID_OFFS + CCCID_SIZE,
        CCC_SIZE as int,
    ));
}

/// What a write sends: 51 bytes, the card identifier of the container in the
/// leading 14 and the template in the rest. Read back, the field at offset 9
/// holds the last five bytes of that identifier and nine zero bytes of the
/// template: the write path does not put the identifier where the read path
/// looks for it.
pub proof fn lemma_write_image_layout(ccc: CCC)
    ensures
        write_image(ccc@).len() == CCC_SIZE,
        write_image(ccc@).subrange(0, CCCID_SIZE as int) == extract(ccc@),
        write_image(ccc@).subrange(CCCID_SIZE as int, CCC_SIZE as int) == template().subrange(
            CCCID_SIZE as int,
            CCC_SIZE as int,
        ),
        extract(write_image(ccc@)) == extract(ccc@).subrange(CCC_ID_OFFS as int, CCCID_SIZE as int)
            + Seq::new(CCC_ID_OFFS as nat, |i: int| 0u8),
{
    vstd::array::array_len_matches_n(&ccc.0);
    assert(write_image(ccc@).subrange(0, CCCID_SIZE as int) =~= extract(ccc@));
    assert(write_image(ccc@).subrange(CCCID_SIZE as int, CCC_SIZE as int) =~= template().subrange(
        CCCID_SIZE as int,
        CCC_SIZE as int,
    ));
    assert(extract(write_image(ccc@)) =~= extract(ccc@).subrange(
        CCC_ID_OFFS as int,
        CCCID_SIZE as int,
    ) + Seq::new(CCC_ID_OFFS as nat, |i: int| 0u8));
}

/// A response of any length but 51, shorter or longer, is rejected with
/// `GenericError`: the read ends aborted and hands out no container.
pub proof fn lemma_wrong_length_is_rejected(response: Vec<u8>, next: Phase, action: Action<CCC>)
    requires
        response@.len() != CCC_SIZE,
        read_step(Event::Fetched(Ok(response)), next, action),
    ensures
        next == Phase::Aborted,
        action == Action::<CCC>::Release(Err(CccError::GenericError)),
{
}

/// A response of exactly 51 bytes is taken as it is.
pub proof fn lemma_full_response_is_accepted(response: Vec<u8>, next: Phase, action: Action<CCC>)
    requires
        response@.len() == CCC_SIZE,
        read_step(Event::Fetched(Ok(response)), next, action),
    ensures
        next == Phase::Committed,
        action matches Action::Release(Ok(ccc)) && ccc@ == response@,
{
}

/// Once the device is released, the transaction takes no further answer:
/// neither a read nor a write can go on.
pub proof fn lemma_released_is_final(phase: Phase, event: Event)
    requires
        phase == Phase::Committed || phase == Phase::Aborted,
    ensures
        !read_accepts(phase, event),
        !write_accepts(phase, event),
{
}

/// Transactions do not nest: while one is active, no outcome of another
/// begin is taken.
pub proof fn lemma_transactions_do_not_nest(began: Result<(), TransportError>)
    ensures
        !read_accepts(Phase::Active, Event::Began(began)),
        !write_accepts(Phase::Active, Event::Began(began)),
{
}

/// A read whose transaction failed to begin never gets to fetch: it ends
/// aborted with the driver's error, unchanged, and nothing can follow.
pub proof fn lemma_failed_begin_ends_read(e: TransportError, next: Phase, action: Action<CCC>)
    requires
        read_step(Event::Began(Err(e)), next, action),
    ensures
        next == Phase::Aborted,
        action == Action::<CCC>::Release(Err(CccError::Transport(e))),
        forall|event: Event| !read_accepts(next, event),
{
}

/// A write whose transaction failed to begin never gets to save: it ends
/// aborted with the driver's error, unchanged, and nothing can follow.
pub proof fn lemma_failed_begin_ends_write(
    ccc: CCC,
    e: TransportError,
    next: Phase,
    action: Action<()>,
)
    requires
        write_step(ccc@, Event::Began(Err(e)), next, action),
    ensures
        next == Phase::Aborted,
        action == Action::<()>::Release(Err(CccError::Transport(e))),
        forall|event: Event| !write_accepts(next, event),
{
}

/// A read asks for a fetch only in answer to a begin that succeeded, with
/// the transaction active from then on, and it never asks for a save.
pub proof fn lemma_fetch_only_when_begun(
    phase: Phase,
    event: Event,
    next: Phase,
    action: Action<CCC>,
)
    requires
        read_accepts(phase, event),
        read_step(event, next, action),
    ensures
        !(action is SaveObject),
        action is FetchObject ==> phase == Phase::Idle && next == Phase::Active && (event matches Event::Began(
            Ok(_),
        )),
        !(action is FetchObject) ==> next == Phase::Committed || next == Phase::Aborted,
{
}

/// A write asks for a save only in answer to a begin that succeeded, with
/// the transaction active from then on, and it never asks for a fetch.
pub proof fn lemma_save_only_when_begun(
    ccc: CCC,
    phase: Phase,
    event: Event,
    next: Phase,
    action: Action<()>,
)
    requires
        write_accepts(phase, event),
        write_step(ccc@, event, next, action),
    ensures
        !(action is FetchObject),
        action is SaveObject ==> phase == Phase::Idle && next == Phase::Active && (event matches Event::Began(
            Ok(_),
        )),
        !(action is SaveObject) ==> next == Phase::Committed || next == Phase::Aborted,
{
}

/// Every failure of the driver, at the begin, the fetch or the save, reaches
/// the caller unchanged.
pub proof fn lemma_transport_errors_pass_through(
    ccc: CCC,
    e: TransportError,
    next: Phase,
    read: Action<CCC>,
    write: Action<()>,
)
    requires
        read_step(Event::Began(Err(e)), next, read) || read_step(
            Event::Fetched(Err(e)),
            next,
            read,
        ),
        write_step(ccc@, Event::Began(Err(e)), next, write) || write_step(
            ccc@,
            Event::Saved(Err(e)),
            next,
            write,
        ),
    ensures
        read == Action::<CCC>::Release(Err(CccError::Transport(e))),
        write == Action::<()>::Release(Err(CccError::Transport(e))),
{
}

} // verus!
