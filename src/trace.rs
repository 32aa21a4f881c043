//! Runs of interrupts, and what holds of every run.
//!
//! Between two interrupts the hardware shifts bytes out of the transmit FIFO
//! and into the receive FIFO. A run is therefore given by the register block
//! each interrupt finds, in order; the transfer state is carried from one
//! interrupt to the next by `interrupt_step`.
use vstd::prelude::*;

use crate::registers::RegistersView;
use crate::spi::{
    completes, exchange_step, idle_view, interrupt_fault, interrupt_step, submitted_view,
    transfer_len, TransferView,
};

verus! {

/// Transfer state after interrupts that find the registers as `hs` says.
pub open spec fn run_interrupts(v: TransferView, hs: Seq<RegistersView>) -> TransferView
    decreases hs.len(),
{
    if hs.len() == 0 {
        v
    } else {
        run_interrupts(interrupt_step(v, hs[0]).0, hs.drop_first())
    }
}

/// No interrupt of the run finds the hardware out of step with the driver.
pub open spec fn run_agrees(v: TransferView, hs: Seq<RegistersView>) -> bool
    decreases hs.len(),
{
    hs.len() == 0 || (!interrupt_fault(v, hs[0]) && run_agrees(
        interrupt_step(v, hs[0]).0,
        hs.drop_first(),
    ))
}

/// Number of interrupts of the run that complete a transfer.
pub open spec fn completions(v: TransferView, hs: Seq<RegistersView>) -> nat
    decreases hs.len(),
{
    if hs.len() == 0 {
        0
    } else {
        (if completes(exchange_step(v, hs[0]).0) {
            1nat
        } else {
            0nat
        }) + completions(interrupt_step(v, hs[0]).0, hs.drop_first())
    }
}

/// Bytes that one interrupt adds to the transmit FIFO.
pub open spec fn sent_by_step(v: TransferView, h: RegistersView) -> Seq<u8> {
    let after = interrupt_step(v, h).1.tx_fifo;
    after.subrange(h.tx_fifo.len() as int, after.len() as int)
}

/// Bytes the interrupts of the run add to the transmit FIFO, in order.
pub open spec fn sent_by_run(v: TransferView, hs: Seq<RegistersView>) -> Seq<u8>
    decreases hs.len(),
{
    if hs.len() == 0 {
        Seq::empty()
    } else {
        sent_by_step(v, hs[0]) + sent_by_run(interrupt_step(v, hs[0]).0, hs.drop_first())
    }
}

/// One interrupt keeps the transfer it works on: its length and buffers
/// stay, it only sends bytes that follow those already sent, in order, and
/// the transfer ends exactly when every byte is sent and received. With no
/// transfer in flight an interrupt changes nothing and completes nothing.
pub proof fn lemma_interrupt_keeps_transfer(v: TransferView, h: RegistersView)
    requires
        v.well_formed(),
        !interrupt_fault(v, h),
    ensures
        interrupt_step(v, h).0.well_formed(),
        v.busy ==> {
            let x = exchange_step(v, h).0;
            &&& x.busy
            &&& x.io_len == v.io_len
            &&& x.write_buffer == v.write_buffer
            &&& v.tx_offset <= x.tx_offset
            &&& sent_by_step(v, h) == v.write_buffer.unwrap().subrange(
                v.tx_offset as int,
                x.tx_offset as int,
            )
            &&& completes(x) ==> interrupt_step(v, h).0 == idle_view()
            &&& !completes(x) ==> interrupt_step(v, h).0 == x
        },
        !v.busy ==> {
            &&& interrupt_step(v, h).0 == idle_view()
            &&& !completes(exchange_step(v, h).0)
            &&& sent_by_step(v, h) == Seq::<u8>::empty()
        },
{
    let x = exchange_step(v, h).1;
    assert(interrupt_step(v, h).1.tx_fifo == x.tx_fifo);
    if v.busy {
        let wb = v.write_buffer.unwrap();
        let s = sent_by_step(v, h);
        assert(s =~= wb.subrange(v.tx_offset as int, exchange_step(v, h).0.tx_offset as int));
    } else {
        assert(v == idle_view());
        assert(sent_by_step(v, h) =~= Seq::<u8>::empty());
    }
}

/// What every run of interrupts keeps: the offsets stay ordered, a transfer
/// in flight keeps its length and write buffer until it completes, it
/// completes at most once, and the bytes the run sends are the next bytes
/// of the write buffer, up to its end when it completes.
pub proof fn lemma_run_keeps_transfer(v: TransferView, hs: Seq<RegistersView>)
    requires
        v.well_formed(),
        run_agrees(v, hs),
    ensures
        run_interrupts(v, hs).well_formed(),
        completions(v, hs) <= 1,
        v.busy && run_interrupts(v, hs).busy ==> {
            &&& completions(v, hs) == 0
            &&& run_interrupts(v, hs).io_len == v.io_len
            &&& run_interrupts(v, hs).write_buffer == v.write_buffer
            &&& v.tx_offset <= run_interrupts(v, hs).tx_offset
            &&& sent_by_run(v, hs) == v.write_buffer.unwrap().subrange(
                v.tx_offset as int,
                run_interrupts(v, hs).tx_offset as int,
            )
        },
        v.busy && !run_interrupts(v, hs).busy ==> {
            &&& completions(v, hs) == 1
            &&& run_interrupts(v, hs) == idle_view()
            &&& sent_by_run(v, hs) == v.write_buffer.unwrap().subrange(
                v.tx_offset as int,
                v.io_len as int,
            )
        },
        !v.busy ==> {
            &&& run_interrupts(v, hs) == idle_view()
            &&& completions(v, hs) == 0
            &&& sent_by_run(v, hs) == Seq::<u8>::empty()
        },
    decreases hs.len(),
{
    if hs.len() > 0 {
        let h = hs[0];
        let next = interrupt_step(v, h).0;
        let rest = hs.drop_first();
        lemma_interrupt_keeps_transfer(v, h);
        lemma_run_keeps_transfer(next, rest);
        if v.busy {
            let wb = v.write_buffer.unwrap();
            let x = exchange_step(v, h).0;
            let step = sent_by_step(v, h);
            if completes(x) {
                assert(sent_by_run(v, hs) =~= step + Seq::<u8>::empty());
                assert(sent_by_run(v, hs) =~= wb.subrange(v.tx_offset as int, v.io_len as int));
            } else {
                let end = run_interrupts(v, hs);
                assert(next == x);
                assert(run_interrupts(v, hs) == run_interrupts(next, rest));
                if end.busy {
                    assert(sent_by_run(v, hs) == step + sent_by_run(next, rest));
                    assert(sent_by_run(v, hs) =~= wb.subrange(
                        v.tx_offset as int,
                        end.tx_offset as int,
                    ));
                } else {
                    assert(sent_by_run(v, hs) =~= wb.subrange(v.tx_offset as int, v.io_len as int));
                }
            }
        } else {
            assert(sent_by_run(v, hs) =~= Seq::<u8>::empty());
        }
    }
}

/// Through every run of interrupts after a transfer is accepted, and at its
/// start, received bytes never outrun sent bytes and sent bytes never
/// outrun the transfer.
pub proof fn lemma_offsets_ordered(
    write: Seq<u8>,
    read: Option<Seq<u8>>,
    len: nat,
    hs: Seq<RegistersView>,
)
    requires
        0 < write.len(),
        0 < len,
        run_agrees(submitted_view(write, read, len), hs),
    ensures
        ({
            let v = run_interrupts(submitted_view(write, read, len), hs);
            v.rx_offset <= v.tx_offset <= v.io_len
        }),
{
    lemma_run_keeps_transfer(submitted_view(write, read, len), hs);
}

/// A request for no bytes, by an empty write buffer or a zero length, is a
/// transfer of no bytes, which is refused.
pub proof fn lemma_empty_request(write_len: nat, read_len: Option<nat>, len: nat)
    requires
        write_len == 0 || len == 0,
    ensures
        transfer_len(write_len, read_len, len) == 0,
{
}

/// An accepted transfer completes at most once; when it has completed the
/// driver is idle with every counter zero, and until then the transfer
/// keeps its length, `min(len, write length, read length if any)`.
pub proof fn lemma_transfer_completes_once(
    write: Seq<u8>,
    read: Option<Seq<u8>>,
    len: nat,
    hs: Seq<RegistersView>,
)
    requires
        0 < write.len(),
        0 < len,
        run_agrees(submitted_view(write, read, len), hs),
    ensures
        ({
            let v = submitted_view(write, read, len);
            let end = run_interrupts(v, hs);
            let read_len = match read {
                Some(b) => Some(b.len()),
                None => None,
            };
            &&& v.io_len == transfer_len(write.len(), read_len, len)
            &&& !end.busy ==> completions(v, hs) == 1 && end == idle_view()
            &&& end.busy ==> completions(v, hs) == 0 && end.io_len == v.io_len
        }),
{
    lemma_run_keeps_transfer(submitted_view(write, read, len), hs);
}

/// A write-only transfer of the whole write buffer sends every byte of it,
/// once and in order: the first burst at submission, the rest by the
/// interrupts up to completion, which comes once, with no read buffer.
pub proof fn lemma_write_only_sends_all(write: Seq<u8>, len: nat, hs: Seq<RegistersView>)
    requires
        0 < write.len() <= len,
        run_agrees(submitted_view(write, None, len), hs),
        !run_interrupts(submitted_view(write, None, len), hs).busy,
    ensures
        ({
            let v = submitted_view(write, None, len);
            &&& v.io_len == write.len()
            &&& v.read_buffer.is_none()
            &&& completions(v, hs) == 1
            &&& write.subrange(0, v.tx_offset as int) + sent_by_run(v, hs) == write
        }),
{
    let v = submitted_view(write, None, len);
    lemma_run_keeps_transfer(v, hs);
    assert(write.subrange(0, v.tx_offset as int) + write.subrange(
        v.tx_offset as int,
        v.io_len as int,
    ) =~= write);
}

} // verus!
