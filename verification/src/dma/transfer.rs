//! The DMA transfer descriptor: one memory<->peripheral (or memory<->memory)
//! transfer, its nine-rule validator, and the execution state machine that
//! drives a stream of a [`DmaManager`] from idle through armed to stopped.

use vstd::prelude::*;

use crate::dma::controller::{streams_updated, DmaManager, StreamOutcome, StreamState};
use crate::dma::types::{
    BurstMode, Channel, CircularMode, DirectMode, Direction, DoubleBufferingMode, Error,
    FifoThreshold, FlowContoller, IncrementMode, InterruptControl, InterruptState, MemoryIndex,
    PeripheralIncrementOffsetSize, PriorityLevel, Stream, StreamControl, Width,
};

verus! {

/// Depth of a stream's FIFO in bytes.
pub const FIFO_SIZE: u32 = 16;

/// One endpoint of a transfer. The address is a raw memory address: the
/// descriptor borrows the buffer behind it and never owns it, so the caller
/// must keep that memory alive while the transfer is armed.
#[derive(Clone, Copy, Debug, PartialEq, Eq, Structural)]
pub struct DmaTransferNode {
    pub address: u32,
    pub burst_mode: BurstMode,
    pub increment_mode: IncrementMode,
    pub transaction_width: Width,
}

/// The unit of work: where to move data, in what widths and bursts, and how
/// the stream is to be configured. Mutated freely through its public fields
/// before `start`; `direct_mode` is derived at construction and re-validated
/// against the direction before any register is written.
#[derive(Clone, Copy, Debug, PartialEq, Eq, Structural)]
pub struct DmaTransfer {
    pub stream: Stream,
    pub channel: Channel,
    pub priority: PriorityLevel,
    pub direction: Direction,
    pub circular_mode: CircularMode,
    pub double_buffering_mode: DoubleBufferingMode,
    pub flow_controller: FlowContoller,
    pub peripheral_increment_offset_size: PeripheralIncrementOffsetSize,
    pub peripheral: DmaTransferNode,
    pub memory: DmaTransferNode,
    pub transaction_count: u16,
    pub direct_mode: DirectMode,
    pub fifo_threshold: FifoThreshold,
    pub interrupt_transfer_complete: InterruptControl,
    pub interrupt_half_transfer: InterruptControl,
    pub interrupt_transfer_error: InterruptControl,
    pub interrupt_direct_mode_error: InterruptControl,
    pub interrupt_fifo: InterruptControl,
}

impl DmaTransfer {
    /// Effective peripheral width in bytes: forced to 4 when the increment
    /// offset policy demands 32-bit offsets, else the node's own width.
    pub open spec fn spec_effective_peripheral_width(self) -> int {
        match self.peripheral_increment_offset_size {
            PeripheralIncrementOffsetSize::Force32Bit => 4,
            PeripheralIncrementOffsetSize::UsePSize => {
                self.peripheral.transaction_width.spec_size() as int
            },
        }
    }

    /// Bytes one memory-side burst moves.
    pub open spec fn spec_memory_burst_bytes(self) -> int {
        self.memory.burst_mode.spec_size() * self.memory.transaction_width.spec_size()
    }

    /// Bytes one peripheral-side burst moves, at the effective width.
    pub open spec fn spec_peripheral_burst_bytes(self) -> int {
        self.peripheral.burst_mode.spec_size() * self.spec_effective_peripheral_width()
    }

    /// The transaction count must be a multiple of this memory-side factor.
    pub open spec fn spec_memory_count_factor(self) -> int {
        self.spec_memory_burst_bytes() / self.spec_effective_peripheral_width()
    }

    /// The transaction count must be a multiple of this peripheral-side
    /// factor.
    pub open spec fn spec_peripheral_count_factor(self) -> int {
        self.spec_peripheral_burst_bytes()
    }

    pub open spec fn memory_count_rule_ok(self) -> bool {
        &&& self.spec_memory_count_factor() != 0
        &&& self.transaction_count as int % self.spec_memory_count_factor() == 0
    }

    pub open spec fn peripheral_count_rule_ok(self) -> bool {
        self.transaction_count as int % self.spec_peripheral_count_factor() == 0
    }

    /// Each endpoint address must be a multiple of its own transaction
    /// width.
    pub open spec fn peripheral_aligned(self) -> bool {
        self.peripheral.address as int % (self.peripheral.transaction_width.spec_size() as int)
            == 0
    }

    pub open spec fn memory_aligned(self) -> bool {
        self.memory.address as int % (self.memory.transaction_width.spec_size() as int) == 0
    }

    /// Circular addressing restrictions apply when circular mode is on or a
    /// second buffer is configured.
    pub open spec fn circular_limitations_apply(self) -> bool {
        self.circular_mode == CircularMode::Enable || self.double_buffering_mode
            != DoubleBufferingMode::Disable
    }

    /// Circular addressing needs a real peripheral endpoint.
    pub open spec fn circular_rule_ok(self) -> bool {
        !(self.circular_limitations_apply() && self.direction == Direction::MemoryToMemory)
    }

    /// The FIFO bypass cannot serve memory-to-memory transfers.
    pub open spec fn direct_mode_rule_ok(self) -> bool {
        !(self.direct_mode == DirectMode::Enable && self.direction == Direction::MemoryToMemory)
    }

    /// Bytes from the memory address to the next 1024-byte boundary.
    pub open spec fn spec_memory_bytes_until_boundary(self) -> int {
        1024 - (self.memory.address as int % 1024)
    }

    pub open spec fn spec_peripheral_bytes_until_boundary(self) -> int {
        1024 - (self.peripheral.address as int % 1024)
    }

    /// Total bytes the memory endpoint will touch: one beat's width when the
    /// address is fixed, the whole transfer when it increments.
    pub open spec fn spec_memory_data_bytes(self) -> int {
        self.memory.transaction_width.spec_size() * (match self.memory.increment_mode {
            IncrementMode::Increment => self.transaction_count as int,
            IncrementMode::Fixed => 1,
        })
    }

    pub open spec fn spec_peripheral_data_bytes(self) -> int {
        self.spec_effective_peripheral_width() * (match self.peripheral.increment_mode {
            IncrementMode::Increment => self.transaction_count as int,
            IncrementMode::Fixed => 1,
        })
    }

    /// If the endpoint touches more bytes than remain before the next
    /// 1024-byte boundary, the distance to that boundary must be a whole
    /// number of bursts, or one burst would straddle it.
    pub open spec fn memory_boundary_rule_ok(self) -> bool {
        !(self.spec_memory_data_bytes() > self.spec_memory_bytes_until_boundary()
            && self.spec_memory_bytes_until_boundary() % self.spec_memory_burst_bytes() != 0)
    }

    pub open spec fn peripheral_boundary_rule_ok(self) -> bool {
        !(self.spec_peripheral_data_bytes() > self.spec_peripheral_bytes_until_boundary()
            && self.spec_peripheral_bytes_until_boundary() % self.spec_peripheral_burst_bytes()
                != 0)
    }

    /// The FIFO fill level named by the threshold must be reachable by whole
    /// memory bursts.
    pub open spec fn fifo_rule_ok(self) -> bool {
        (self.fifo_threshold.spec_numerator() * FIFO_SIZE) % (
        self.fifo_threshold.spec_denominator() * self.spec_memory_burst_bytes()) == 0
    }

    /// The validator's answer: the first violated rule's error, in the fixed
    /// priority order, or `None` for a descriptor the hardware accepts.
    pub open spec fn spec_validate(self) -> Option<Error> {
        if !self.memory_count_rule_ok() {
            Some(Error::TransactionCountNotAMultipleOf(self.spec_memory_count_factor() as u16))
        } else if !self.peripheral_count_rule_ok() {
            Some(Error::TransactionCountNotAMultipleOf(self.spec_peripheral_count_factor() as u16))
        } else if !self.peripheral_aligned() {
            Some(Error::UnalignedPeripheralAddress)
        } else if !self.memory_aligned() {
            Some(Error::UnalignedMemoryAddress)
        } else if !self.circular_rule_ok() {
            Some(Error::CannotUseMemoryToMemoryTransferWithCircularMode)
        } else if !self.direct_mode_rule_ok() {
            Some(Error::CannotUseMemoryToMemoryTransferWithDirectMode)
        } else if !self.memory_boundary_rule_ok() {
            Some(Error::MemoryAccessWouldCrossOneKilobyteBoundary)
        } else if !self.peripheral_boundary_rule_ok() {
            Some(Error::PeripheralAccessWouldCrossOneKilobyteBoundary)
        } else if !self.fifo_rule_ok() {
            Some(Error::InvalidFifoThresholdMemoryBurstCombination)
        } else {
            None
        }
    }

    /// A fresh descriptor with the documented defaults: medium priority,
    /// circular addressing off, the DMA as flow controller, a full FIFO
    /// threshold, and the FIFO bypassed exactly when the transfer is smaller
    /// than the FIFO.
    pub fn new(
        stream: Stream,
        channel: Channel,
        direction: Direction,
        peripheral: DmaTransferNode,
        memory: DmaTransferNode,
        transaction_count: u16,
    ) -> (t: DmaTransfer)
        ensures
            t.stream == stream,
            t.channel == channel,
            t.direction == direction,
            t.peripheral == peripheral,
            t.memory == memory,
            t.transaction_count == transaction_count,
            t.priority == PriorityLevel::Medium,
            t.circular_mode == CircularMode::Disable,
            t.double_buffering_mode == DoubleBufferingMode::Disable,
            t.flow_controller == FlowContoller::DMA,
            t.peripheral_increment_offset_size == PeripheralIncrementOffsetSize::UsePSize,
            t.direct_mode == (if transaction_count
                * peripheral.transaction_width.spec_size() >= FIFO_SIZE {
                DirectMode::Disable
            } else {
                DirectMode::Enable
            }),
            t.fifo_threshold == FifoThreshold::Full,
            t.interrupt_transfer_complete == InterruptControl::Enable,
            t.interrupt_half_transfer == InterruptControl::Disable,
            t.interrupt_transfer_error == InterruptControl::Enable,
            t.interrupt_direct_mode_error == InterruptControl::Enable,
            t.interrupt_fifo == InterruptControl::Enable,
    {
        let pwidth = peripheral.transaction_width.get_size();
        DmaTransfer {
            stream,
            channel,
            priority: PriorityLevel::Medium,
            direction,
            circular_mode: CircularMode::Disable,
            double_buffering_mode: DoubleBufferingMode::Disable,
            flow_controller: FlowContoller::DMA,
            peripheral_increment_offset_size: PeripheralIncrementOffsetSize::UsePSize,
            peripheral,
            memory,
            transaction_count,
            direct_mode: if transaction_count as u32 * pwidth >= FIFO_SIZE {
                DirectMode::Disable
            } else {
                DirectMode::Enable
            },
            fifo_threshold: FifoThreshold::Full,
            interrupt_transfer_complete: InterruptControl::Enable,
            interrupt_half_transfer: InterruptControl::Disable,
            interrupt_transfer_error: InterruptControl::Enable,
            interrupt_direct_mode_error: InterruptControl::Enable,
            interrupt_fifo: InterruptControl::Enable,
        }
    }

    /// Runs the nine validation rules, purely over descriptor state.
    pub fn is_valid(&self) -> (r: Option<Error>)
        ensures
            r == self.spec_validate(),
    {
        let apply_circular_mode_limitations = self.circular_mode == CircularMode::Enable
            || self.double_buffering_mode != DoubleBufferingMode::Disable;
        let mwidth = self.memory.transaction_width.get_size();
        let pwidth = match self.peripheral_increment_offset_size {
            PeripheralIncrementOffsetSize::Force32Bit => 4,
            PeripheralIncrementOffsetSize::UsePSize => self.peripheral.transaction_width.get_size(
            ),
        };
        proof {
            assert(1 <= mwidth <= 4);
            assert(1 <= pwidth <= 4);
            assert(1 <= self.memory.burst_mode.spec_size() <= 16);
            assert(1 <= self.peripheral.burst_mode.spec_size() <= 16);
            assert(1 <= self.memory.burst_mode.spec_size() * mwidth <= 64) by (nonlinear_arith)
                requires
                    1 <= mwidth <= 4,
                    1 <= self.memory.burst_mode.spec_size() <= 16,
            ;
            assert(1 <= self.peripheral.burst_mode.spec_size() * pwidth <= 64) by (
            nonlinear_arith)
                requires
                    1 <= pwidth <= 4,
                    1 <= self.peripheral.burst_mode.spec_size() <= 16,
            ;
            assert(mwidth * (self.transaction_count as u32) <= 262140) by (nonlinear_arith)
                requires
                    1 <= mwidth <= 4,
                    self.transaction_count <= 65535,
            ;
            assert(pwidth * (self.transaction_count as u32) <= 262140) by (nonlinear_arith)
                requires
                    1 <= pwidth <= 4,
                    self.transaction_count <= 65535,
            ;
        }
        let mburst_size = self.memory.burst_mode.get_size() * mwidth;
        let pburst_size = self.peripheral.burst_mode.get_size() * pwidth;
        proof {
            assert(1 <= mburst_size <= 64);
            assert(1 <= pburst_size <= 64);
            assert(self.fifo_threshold.spec_denominator() == 4);
            assert(self.fifo_threshold.spec_denominator() * mburst_size <= 256) by (
            nonlinear_arith)
                requires
                    1 <= mburst_size <= 64,
                    self.fifo_threshold.spec_denominator() == 4,
            ;
            assert(self.fifo_threshold.spec_denominator() * mburst_size >= 1) by (nonlinear_arith)
                requires
                    1 <= mburst_size <= 64,
                    self.fifo_threshold.spec_denominator() == 4,
            ;
        }
        let mcount_factor = (mburst_size / pwidth) as u16;
        let pcount_factor = pburst_size as u16;
        let mdata_before_first_kb_boundary = 1024 - (self.memory.address % 1024);
        let pdata_before_first_kb_boundary = 1024 - (self.peripheral.address % 1024);
        let mdata_size = mwidth * (match self.memory.increment_mode {
            IncrementMode::Increment => self.transaction_count as u32,
            IncrementMode::Fixed => 1,
        });
        let pdata_size = pwidth * (match self.peripheral.increment_mode {
            IncrementMode::Increment => self.transaction_count as u32,
            IncrementMode::Fixed => 1,
        });
        if mcount_factor == 0 || self.transaction_count % mcount_factor != 0 {
            Some(Error::TransactionCountNotAMultipleOf(mcount_factor))
        } else if self.transaction_count % pcount_factor != 0 {
            Some(Error::TransactionCountNotAMultipleOf(pcount_factor))
        } else if self.peripheral.address % self.peripheral.transaction_width.get_size() != 0 {
            Some(Error::UnalignedPeripheralAddress)
        } else if self.memory.address % self.memory.transaction_width.get_size() != 0 {
            Some(Error::UnalignedMemoryAddress)
        } else if apply_circular_mode_limitations && self.direction == Direction::MemoryToMemory {
            Some(Error::CannotUseMemoryToMemoryTransferWithCircularMode)
        } else if self.direct_mode == DirectMode::Enable && self.direction
            == Direction::MemoryToMemory {
            Some(Error::CannotUseMemoryToMemoryTransferWithDirectMode)
        } else if mdata_size > mdata_before_first_kb_boundary && mdata_before_first_kb_boundary
            % mburst_size != 0 {
            Some(Error::MemoryAccessWouldCrossOneKilobyteBoundary)
        } else if pdata_size > pdata_before_first_kb_boundary && pdata_before_first_kb_boundary
            % pburst_size != 0 {
            Some(Error::PeripheralAccessWouldCrossOneKilobyteBoundary)
        } else if (self.fifo_threshold.get_numerator() * FIFO_SIZE) % (
        self.fifo_threshold.get_denominator() * mburst_size) != 0 {
            Some(Error::InvalidFifoThresholdMemoryBurstCombination)
        } else {
            None
        }
    }

    /// The registers of the stream this descriptor targets.
    pub open spec fn spec_stream(self, dma: DmaManager) -> StreamState {
        dma.controller.streams@[self.stream.spec_index()]
    }

    /// The stream's registers after `configure`: every configuration field
    /// taken from the descriptor, the five sticky flags cleared, and the
    /// enable bit, second-buffer address and modelled outcome untouched.
    pub open spec fn spec_configured_stream(self, s: StreamState) -> StreamState {
        StreamState {
            en: s.en,
            channel: self.channel,
            priority: self.priority,
            direction: self.direction,
            circular_mode: self.circular_mode,
            double_buffering_mode: self.double_buffering_mode,
            flow_controller: self.flow_controller,
            peripheral_width: self.peripheral.transaction_width,
            peripheral_increment: self.peripheral.increment_mode,
            peripheral_burst: self.peripheral.burst_mode,
            peripheral_increment_offset_size: self.peripheral_increment_offset_size,
            peripheral_address: self.peripheral.address,
            memory_width: self.memory.transaction_width,
            memory_increment: self.memory.increment_mode,
            memory_burst: self.memory.burst_mode,
            memory0_address: self.memory.address,
            memory1_address: s.memory1_address,
            transaction_count: self.transaction_count,
            direct_mode: self.direct_mode,
            fifo_threshold: self.fifo_threshold,
            transfer_complete_interrupt: self.interrupt_transfer_complete,
            half_transfer_interrupt: self.interrupt_half_transfer,
            transfer_error_interrupt: self.interrupt_transfer_error,
            direct_mode_error_interrupt: self.interrupt_direct_mode_error,
            fifo_error_interrupt: self.interrupt_fifo,
            half_transfer_flag: InterruptState::NotRaised,
            transfer_complete_flag: InterruptState::NotRaised,
            transfer_error_flag: InterruptState::NotRaised,
            direct_mode_error_flag: InterruptState::NotRaised,
            fifo_error_flag: InterruptState::NotRaised,
            outcome: s.outcome,
        }
    }

    /// The stream's registers after a successful `start`: configured and
    /// enabled.
    pub open spec fn spec_armed_stream(self, s: StreamState) -> StreamState {
        StreamState { en: StreamControl::Enable, ..self.spec_configured_stream(s) }
    }

    /// The stream's registers after a successful `execute`: configured, the
    /// flag of the modelled outcome raised, and the stream disabled again.
    pub open spec fn spec_executed_stream(self, s: StreamState) -> StreamState {
        StreamState { en: StreamControl::Disable, ..self.spec_armed_stream(s).with_outcome_flag() }
    }

    /// The stream may be (re)started: it is not in the middle of a transfer.
    pub fn is_ready(&self, dma: &DmaManager) -> (r: bool)
        requires
            dma.wf(),
        ensures
            r == !self.spec_stream(*dma).spec_is_active(),
    {
        !self.is_active(dma)
    }

    pub fn is_running(&self, dma: &DmaManager) -> (r: bool)
        requires
            dma.wf(),
        ensures
            r == self.spec_stream(*dma).spec_is_running(),
    {
        dma.controller.sxcr_en(self.stream) == StreamControl::Enable
    }

    pub fn is_finished(&self, dma: &DmaManager) -> (r: bool)
        requires
            dma.wf(),
        ensures
            r == self.spec_stream(*dma).spec_is_finished(),
    {
        dma.controller.tcif(self.stream) == InterruptState::Raised
    }

    pub fn is_error(&self, dma: &DmaManager) -> (r: bool)
        requires
            dma.wf(),
        ensures
            r == self.spec_stream(*dma).spec_is_error(),
    {
        self.is_transfer_error(dma) || self.is_direct_mode_error(dma)
    }

    pub fn is_transfer_error(&self, dma: &DmaManager) -> (r: bool)
        requires
            dma.wf(),
        ensures
            r == (self.spec_stream(*dma).transfer_error_flag == InterruptState::Raised),
    {
        dma.controller.teif(self.stream) == InterruptState::Raised
    }

    pub fn is_direct_mode_error(&self, dma: &DmaManager) -> (r: bool)
        requires
            dma.wf(),
        ensures
            r == (self.spec_stream(*dma).direct_mode_error_flag == InterruptState::Raised),
    {
        dma.controller.dmeif(self.stream) == InterruptState::Raised
    }

    /// Liveness predicate used for polling: enabled and neither finished nor
    /// failed.
    pub fn is_active(&self, dma: &DmaManager) -> (r: bool)
        requires
            dma.wf(),
        ensures
            r == self.spec_stream(*dma).spec_is_active(),
    {
        self.is_running(dma) && !self.is_finished(dma) && !self.is_error(dma)
    }

    /// Clears the five sticky status flags of the stream.
    fn configure_clear_flags(&self, dma: &mut DmaManager)
        requires
            old(dma).wf(),
        ensures
            final(dma).wf(),
            streams_updated(
                old(dma).controller.streams@,
                final(dma).controller.streams@,
                self.stream.spec_index(),
                (StreamState {
                    half_transfer_flag: InterruptState::NotRaised,
                    transfer_complete_flag: InterruptState::NotRaised,
                    transfer_error_flag: InterruptState::NotRaised,
                    fifo_error_flag: InterruptState::NotRaised,
                    direct_mode_error_flag: InterruptState::NotRaised,
                    ..old(dma).controller.streams@[self.stream.spec_index()]
                }),
            ),
    {
        dma.controller.clear_htif(self.stream);

        dma.controller.clear_tcif(self.stream);

        dma.controller.clear_teif(self.stream);

        dma.controller.clear_feif(self.stream);

        dma.controller.clear_dmeif(self.stream);
    }

    /// Writes channel selection, priority, direction, circular and
    /// double-buffer modes, flow controller and the peripheral width and
    /// increment policy.
    fn configure_control(&self, dma: &mut DmaManager)
        requires
            old(dma).wf(),
        ensures
            final(dma).wf(),
            streams_updated(
                old(dma).controller.streams@,
                final(dma).controller.streams@,
                self.stream.spec_index(),
                (StreamState {
                    channel: self.channel,
                    priority: self.priority,
                    direction: self.direction,
                    circular_mode: self.circular_mode,
                    double_buffering_mode: self.double_buffering_mode,
                    flow_controller: self.flow_controller,
                    peripheral_width: self.peripheral.transaction_width,
                    peripheral_increment: self.peripheral.increment_mode,
                    ..old(dma).controller.streams@[self.stream.spec_index()]
                }),
            ),
    {
        dma.controller.set_sxcr_channel(self.stream, self.channel);

        dma.controller.set_sxcr_pl(self.stream, self.priority);

        dma.controller.set_sxcr_dir(self.stream, self.direction);

        dma.controller.set_sxcr_circ(self.stream, self.circular_mode);

        dma.controller.set_sxcr_dbm(self.stream, self.double_buffering_mode);

        dma.controller.set_sxcr_pfctrl(self.stream, self.flow_controller);

        dma.controller.set_sxcr_psize(self.stream, self.peripheral.transaction_width);

        dma.controller.set_sxcr_pinc(self.stream, self.peripheral.increment_mode);
    }

    /// Writes the burst modes, the two endpoint addresses, the memory width
    /// and increment policy and the transaction count.
    fn configure_endpoints(&self, dma: &mut DmaManager)
        requires
            old(dma).wf(),
        ensures
            final(dma).wf(),
            streams_updated(
                old(dma).controller.streams@,
                final(dma).controller.streams@,
                self.stream.spec_index(),
                (StreamState {
                    peripheral_burst: self.peripheral.burst_mode,
                    peripheral_increment_offset_size: self.peripheral_increment_offset_size,
                    peripheral_address: self.peripheral.address,
                    memory_width: self.memory.transaction_width,
                    memory_increment: self.memory.increment_mode,
                    memory_burst: self.memory.burst_mode,
                    memory0_address: self.memory.address,
                    transaction_count: self.transaction_count,
                    ..old(dma).controller.streams@[self.stream.spec_index()]
                }),
            ),
    {
        dma.controller.set_sxcr_pburst(self.stream, self.peripheral.burst_mode);

        dma.controller.set_sxcr_pincos(self.stream, self.peripheral_increment_offset_size);

        dma.controller.set_sxpar(self.stream, self.peripheral.address);

        dma.controller.set_sxcr_msize(self.stream, self.memory.transaction_width);

        dma.controller.set_sxcr_minc(self.stream, self.memory.increment_mode);

        dma.controller.set_sxcr_mburst(self.stream, self.memory.burst_mode);

        dma.controller.set_sxmxar(self.stream, MemoryIndex::M0, self.memory.address);

        dma.controller.set_sxndtr(self.stream, self.transaction_count);
    }

    /// Writes the FIFO policy and the five interrupt-enable bits.
    fn configure_fifo_and_interrupts(&self, dma: &mut DmaManager)
        requires
            old(dma).wf(),
        ensures
            final(dma).wf(),
            streams_updated(
                old(dma).controller.streams@,
                final(dma).controller.streams@,
                self.stream.spec_index(),
                (StreamState {
                    direct_mode: self.direct_mode,
                    fifo_threshold: self.fifo_threshold,
                    transfer_complete_interrupt: self.interrupt_transfer_complete,
                    half_transfer_interrupt: self.interrupt_half_transfer,
                    transfer_error_interrupt: self.interrupt_transfer_error,
                    direct_mode_error_interrupt: self.interrupt_direct_mode_error,
                    fifo_error_interrupt: self.interrupt_fifo,
                    ..old(dma).controller.streams@[self.stream.spec_index()]
                }),
            ),
    {
        dma.controller.set_sxfcr_dmdis(self.stream, self.direct_mode);

        dma.controller.set_sxfcr_fth(self.stream, self.fifo_threshold);

        dma.controller.set_sxcr_tcie(self.stream, self.interrupt_transfer_complete);

        dma.controller.set_sxcr_htie(self.stream, self.interrupt_half_transfer);

        dma.controller.set_sxcr_teie(self.stream, self.interrupt_transfer_error);

        dma.controller.set_sxcr_dmeie(self.stream, self.interrupt_direct_mode_error);

        dma.controller.set_sxfcr_feie(self.stream, self.interrupt_fifo);
    }

    /// Writes the whole configuration to the stream's registers, clearing the
    /// sticky status flags first.
    fn configure(&self, dma: &mut DmaManager)
        requires
            old(dma).wf(),
        ensures
            final(dma).wf(),
            streams_updated(
                old(dma).controller.streams@,
                final(dma).controller.streams@,
                self.stream.spec_index(),
                self.spec_configured_stream(
                    old(dma).controller.streams@[self.stream.spec_index()],
                ),
            ),
    {
        let ghost i = self.stream.spec_index();
        let ghost s0 = dma.controller.streams@;

        self.configure_clear_flags(dma);

        self.configure_control(dma);

        self.configure_endpoints(dma);

        self.configure_fifo_and_interrupts(dma);

        proof {
            assert(dma.controller.streams@[i] == self.spec_configured_stream(s0[i]));
        }
    }

    /// Re-validates the descriptor; on a valid descriptor and a ready stream,
    /// clears the sticky flags, writes the whole configuration and enables
    /// the stream. On any refusal no register is written.
    pub fn start(&self, dma: &mut DmaManager) -> (r: Result<(), Error>)
        requires
            old(dma).wf(),
        ensures
            final(dma).wf(),
            self.spec_validate() matches Some(e) ==> r == Err::<(), Error>(e) && final(dma).controller.streams@ == old(dma).controller.streams@,
            self.spec_validate() is None && self.spec_stream(*old(dma)).spec_is_active() ==> r == Err::<(), Error>(Error::StreamNotReady) && final(dma).controller.streams@ == old(dma).controller.streams@,
            self.spec_validate() is None && !self.spec_stream(*old(dma)).spec_is_active() ==> r == Ok::<(), Error>(()) && streams_updated(
                old(dma).controller.streams@,
                final(dma).controller.streams@,
                self.stream.spec_index(),
                self.spec_armed_stream(old(dma).controller.streams@[self.stream.spec_index()]),
            ),
    {
        let ghost i = self.stream.spec_index();
        let ghost s0 = dma.controller.streams@;
        let result = self.is_valid();

        if result.is_none() {
            if self.is_ready(dma) {
                self.configure(dma);

                dma.controller.set_sxcr_en(self.stream, StreamControl::Enable);
                proof {
                    assert(streams_updated(s0, dma.controller.streams@, i, self.spec_armed_stream(s0[i])));
                }

                Ok(())
            } else {
                Err(Error::StreamNotReady)
            }
        } else {
            Err(result.unwrap())
        }
    }

    /// Disables the stream, whatever state it is in (idempotent).
    pub fn stop(&self, dma: &mut DmaManager)
        requires
            old(dma).wf(),
        ensures
            final(dma).wf(),
            streams_updated(
                old(dma).controller.streams@,
                final(dma).controller.streams@,
                self.stream.spec_index(),
                (StreamState {
                    en: StreamControl::Disable,
                    ..old(dma).controller.streams@[self.stream.spec_index()]
                }),
            ),
    {
        dma.controller.set_sxcr_en(self.stream, StreamControl::Disable);
    }

    /// Busy-polls the liveness predicate until the stream stops, letting the
    /// modelled engine make progress between polls, and reports whether the
    /// transfer ended without error.
    pub fn wait(&self, dma: &mut DmaManager) -> (r: bool)
        requires
            old(dma).wf(),
        ensures
            final(dma).wf(),
            !self.spec_stream(*old(dma)).spec_is_active() ==> final(dma).controller.streams@ == old(dma).controller.streams@,
            self.spec_stream(*old(dma)).spec_is_active() ==> streams_updated(
                old(dma).controller.streams@,
                final(dma).controller.streams@,
                self.stream.spec_index(),
                self.spec_stream(*old(dma)).with_outcome_flag(),
            ),
            r == !self.spec_stream(*final(dma)).spec_is_error(),
    {
        while self.is_active(dma)
            invariant
                dma.wf(),
                self.spec_stream(*dma).spec_is_active() ==> dma.controller.streams@ == old(dma).controller.streams@,
                !self.spec_stream(*old(dma)).spec_is_active() ==> dma.controller.streams@ == old(dma).controller.streams@,
                dma.controller.streams@ == old(dma).controller.streams@ || (!self.spec_stream(*dma).spec_is_active() && streams_updated(
                    old(dma).controller.streams@,
                    dma.controller.streams@,
                    self.stream.spec_index(),
                    self.spec_stream(*old(dma)).with_outcome_flag(),
                )),
            decreases (if self.spec_stream(*dma).spec_is_active() {
                1int
            } else {
                0int
            }),
        {
            dma.controller.step_stream(self.stream);
        }

        !self.is_error(dma)
    }

    /// Start, busy-wait, stop. A validator or readiness refusal is propagated
    /// untouched, with no register written; once the stream was armed it is
    /// disabled again on every path, so `execute` never leaves a stream
    /// armed.
    pub fn execute(&self, dma: &mut DmaManager) -> (r: Result<bool, Error>)
        requires
            old(dma).wf(),
        ensures
            final(dma).wf(),
            self.spec_validate() matches Some(e) ==> r == Err::<bool, Error>(e) && final(dma).controller.streams@ == old(dma).controller.streams@,
            self.spec_validate() is None && self.spec_stream(*old(dma)).spec_is_active() ==> r == Err::<bool, Error>(Error::StreamNotReady) && final(dma).controller.streams@ == old(dma).controller.streams@,
            self.spec_validate() is None && !self.spec_stream(*old(dma)).spec_is_active() ==> r == Ok::<bool, Error>(
                self.spec_stream(*old(dma)).outcome == StreamOutcome::Complete,
            ) && streams_updated(
                old(dma).controller.streams@,
                final(dma).controller.streams@,
                self.stream.spec_index(),
                self.spec_executed_stream(old(dma).controller.streams@[self.stream.spec_index()]),
            ),
            // the stream is never left armed
            r is Ok ==> self.spec_stream(*final(dma)).en == StreamControl::Disable,
            self.spec_stream(*old(dma)).en == StreamControl::Disable ==> self.spec_stream(
                *final(dma),
            ).en == StreamControl::Disable,
    {
        let ghost i = self.stream.spec_index();
        let ghost s0 = dma.controller.streams@;
        match self.start(dma) {
            Ok(_) => Ok(
                {
                    let ghost armed = self.spec_armed_stream(s0[i]);
                    proof {
                        assert(dma.controller.streams@[i] == armed);
                        assert(armed.spec_is_active());
                    }
                    let result = self.wait(dma);
                    proof {
                        assert(streams_updated(
                            s0,
                            dma.controller.streams@,
                            i,
                            armed.with_outcome_flag(),
                        ));
                    }
                    self.stop(dma);
                    proof {
                        assert(streams_updated(
                            s0,
                            dma.controller.streams@,
                            i,
                            self.spec_executed_stream(s0[i]),
                        ));
                    }

                    result
                },
            ),
            Err(x) => Err(x),
        }
    }
}

/// A descriptor that satisfies every one of the nine validation rules is
/// accepted, and an accepted descriptor satisfies every rule.
pub proof fn lemma_validator_accepts_exactly_the_rules(t: DmaTransfer)
    ensures
        t.spec_validate() is None <==> {
            &&& t.memory_count_rule_ok()
            &&& t.peripheral_count_rule_ok()
            &&& t.peripheral_aligned()
            &&& t.memory_aligned()
            &&& t.circular_rule_ok()
            &&& t.direct_mode_rule_ok()
            &&& t.memory_boundary_rule_ok()
            &&& t.peripheral_boundary_rule_ok()
            &&& t.fifo_rule_ok()
        },
{
}

/// A transaction count that is no multiple of the memory-side factor
/// (memory-burst bytes over effective peripheral width) is rejected with
/// exactly that factor.
pub proof fn lemma_count_not_multiple_of_memory_factor_rejected(t: DmaTransfer)
    requires
        !t.memory_count_rule_ok(),
    ensures
        t.spec_validate() == Some(
            Error::TransactionCountNotAMultipleOf(t.spec_memory_count_factor() as u16),
        ),
{
}

/// A transaction count that is no multiple of the peripheral-side factor
/// (peripheral-burst bytes) is rejected with exactly that factor, once the
/// memory-side rule holds.
pub proof fn lemma_count_not_multiple_of_peripheral_factor_rejected(t: DmaTransfer)
    requires
        t.memory_count_rule_ok(),
        !t.peripheral_count_rule_ok(),
    ensures
        t.spec_validate() == Some(
            Error::TransactionCountNotAMultipleOf(t.spec_peripheral_count_factor() as u16),
        ),
{
}

/// An unaligned peripheral address is rejected as exactly that, once the
/// count rules hold; an unaligned memory address likewise, once the
/// peripheral address is aligned.
pub proof fn lemma_unaligned_address_rejected(t: DmaTransfer)
    requires
        t.memory_count_rule_ok(),
        t.peripheral_count_rule_ok(),
    ensures
        !t.peripheral_aligned() ==> t.spec_validate() == Some(Error::UnalignedPeripheralAddress),
        t.peripheral_aligned() && !t.memory_aligned() ==> t.spec_validate() == Some(
            Error::UnalignedMemoryAddress,
        ),
{
}

/// Correcting an unaligned address, holding all else fixed, clears the
/// alignment error: a descriptor with both addresses aligned is never
/// rejected for alignment.
pub proof fn lemma_aligned_addresses_never_rejected_for_alignment(t: DmaTransfer)
    requires
        t.peripheral_aligned(),
        t.memory_aligned(),
    ensures
        t.spec_validate() != Some(Error::UnalignedPeripheralAddress),
        t.spec_validate() != Some(Error::UnalignedMemoryAddress),
{
}

/// Circular mode, or a second buffer, together with the memory-to-memory
/// direction is always rejected as the circular-mode incompatibility,
/// whatever the remaining fields, once the count and alignment rules hold.
pub proof fn lemma_memory_to_memory_circular_rejected(t: DmaTransfer)
    requires
        t.memory_count_rule_ok(),
        t.peripheral_count_rule_ok(),
        t.peripheral_aligned(),
        t.memory_aligned(),
        t.circular_limitations_apply(),
        t.direction == Direction::MemoryToMemory,
    ensures
        t.spec_validate() == Some(Error::CannotUseMemoryToMemoryTransferWithCircularMode),
{
}

} // verus!
