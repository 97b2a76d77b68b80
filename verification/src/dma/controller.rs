//! Shadow model of one DMA engine: the per-stream control and status
//! registers as plain data, an adapter that translates typed configuration
//! values into register writes, and the clock-enable register of the bus the
//! engines hang off.
//!
//! The model also carries the one thing real silicon decides on its own: the
//! outcome of a running transfer. Each stream holds an `outcome` field, and
//! [`DmaController::step_stream`] advances the modelled engine by one poll,
//! raising the completion or error flag that field selects.

use vstd::prelude::*;

use crate::dma::types::{
    BurstMode, Channel, CircularMode, DirectMode, Direction, DoubleBufferingMode, FifoThreshold,
    FlowContoller, IncrementMode, InterruptControl, InterruptState, MemoryIndex,
    PeripheralIncrementOffsetSize, PriorityLevel, Stream, StreamControl, Width,
};

verus! {

/// How the modelled engine ends the next transfer of a stream: cleanly, with
/// a transfer error, or with a direct-mode error.
#[derive(Clone, Copy, Debug, PartialEq, Eq, Structural)]
pub enum StreamOutcome {
    Complete,
    TransferError,
    DirectModeError,
}

/// The registers of one stream, plus the modelled engine's `outcome` choice.
#[derive(Clone, Copy, Debug, PartialEq, Eq, Structural)]
pub struct StreamState {
    pub en: StreamControl,
    pub channel: Channel,
    pub priority: PriorityLevel,
    pub direction: Direction,
    pub circular_mode: CircularMode,
    pub double_buffering_mode: DoubleBufferingMode,
    pub flow_controller: FlowContoller,
    pub peripheral_width: Width,
    pub peripheral_increment: IncrementMode,
    pub peripheral_burst: BurstMode,
    pub peripheral_increment_offset_size: PeripheralIncrementOffsetSize,
    pub peripheral_address: u32,
    pub memory_width: Width,
    pub memory_increment: IncrementMode,
    pub memory_burst: BurstMode,
    pub memory0_address: u32,
    pub memory1_address: u32,
    pub transaction_count: u16,
    pub direct_mode: DirectMode,
    pub fifo_threshold: FifoThreshold,
    pub transfer_complete_interrupt: InterruptControl,
    pub half_transfer_interrupt: InterruptControl,
    pub transfer_error_interrupt: InterruptControl,
    pub direct_mode_error_interrupt: InterruptControl,
    pub fifo_error_interrupt: InterruptControl,
    pub half_transfer_flag: InterruptState,
    pub transfer_complete_flag: InterruptState,
    pub transfer_error_flag: InterruptState,
    pub direct_mode_error_flag: InterruptState,
    pub fifo_error_flag: InterruptState,
    pub outcome: StreamOutcome,
}

impl StreamState {
    /// Every register field at its reset bit pattern; the modelled outcome
    /// defaults to a clean completion.
    pub open spec fn spec_reset() -> StreamState {
        StreamState {
            en: StreamControl::Disable,
            channel: Channel::C0,
            priority: PriorityLevel::Low,
            direction: Direction::PeripheralToMemory,
            circular_mode: CircularMode::Disable,
            double_buffering_mode: DoubleBufferingMode::Disable,
            flow_controller: FlowContoller::DMA,
            peripheral_width: Width::Byte,
            peripheral_increment: IncrementMode::Fixed,
            peripheral_burst: BurstMode::SingleTransfer,
            peripheral_increment_offset_size: PeripheralIncrementOffsetSize::UsePSize,
            peripheral_address: 0,
            memory_width: Width::Byte,
            memory_increment: IncrementMode::Fixed,
            memory_burst: BurstMode::SingleTransfer,
            memory0_address: 0,
            memory1_address: 0,
            transaction_count: 0,
            direct_mode: DirectMode::Enable,
            fifo_threshold: FifoThreshold::Quarter,
            transfer_complete_interrupt: InterruptControl::Disable,
            half_transfer_interrupt: InterruptControl::Disable,
            transfer_error_interrupt: InterruptControl::Disable,
            direct_mode_error_interrupt: InterruptControl::Disable,
            fifo_error_interrupt: InterruptControl::Disable,
            half_transfer_flag: InterruptState::NotRaised,
            transfer_complete_flag: InterruptState::NotRaised,
            transfer_error_flag: InterruptState::NotRaised,
            direct_mode_error_flag: InterruptState::NotRaised,
            fifo_error_flag: InterruptState::NotRaised,
            outcome: StreamOutcome::Complete,
        }
    }

    pub fn reset() -> (r: StreamState)
        ensures
            r == StreamState::spec_reset(),
    {
        StreamState {
            en: StreamControl::Disable,
            channel: Channel::C0,
            priority: PriorityLevel::Low,
            direction: Direction::PeripheralToMemory,
            circular_mode: CircularMode::Disable,
            double_buffering_mode: DoubleBufferingMode::Disable,
            flow_controller: FlowContoller::DMA,
            peripheral_width: Width::Byte,
            peripheral_increment: IncrementMode::Fixed,
            peripheral_burst: BurstMode::SingleTransfer,
            peripheral_increment_offset_size: PeripheralIncrementOffsetSize::UsePSize,
            peripheral_address: 0,
            memory_width: Width::Byte,
            memory_increment: IncrementMode::Fixed,
            memory_burst: BurstMode::SingleTransfer,
            memory0_address: 0,
            memory1_address: 0,
            transaction_count: 0,
            direct_mode: DirectMode::Enable,
            fifo_threshold: FifoThreshold::Quarter,
            transfer_complete_interrupt: InterruptControl::Disable,
            half_transfer_interrupt: InterruptControl::Disable,
            transfer_error_interrupt: InterruptControl::Disable,
            direct_mode_error_interrupt: InterruptControl::Disable,
            fifo_error_interrupt: InterruptControl::Disable,
            half_transfer_flag: InterruptState::NotRaised,
            transfer_complete_flag: InterruptState::NotRaised,
            transfer_error_flag: InterruptState::NotRaised,
            direct_mode_error_flag: InterruptState::NotRaised,
            fifo_error_flag: InterruptState::NotRaised,
            outcome: StreamOutcome::Complete,
        }
    }

    /// The stream enable bit is set.
    pub open spec fn spec_is_running(self) -> bool {
        self.en == StreamControl::Enable
    }

    /// The transfer-complete flag is set.
    pub open spec fn spec_is_finished(self) -> bool {
        self.transfer_complete_flag == InterruptState::Raised
    }

    /// A transfer-error or direct-mode-error flag is set.
    pub open spec fn spec_is_error(self) -> bool {
        self.transfer_error_flag == InterruptState::Raised
            || self.direct_mode_error_flag == InterruptState::Raised
    }

    /// Liveness predicate: enabled and neither finished nor failed.
    pub open spec fn spec_is_active(self) -> bool {
        self.spec_is_running() && !self.spec_is_finished() && !self.spec_is_error()
    }

    /// The stream with the flag of its modelled outcome raised.
    pub open spec fn with_outcome_flag(self) -> StreamState {
        match self.outcome {
            StreamOutcome::Complete => (StreamState {
                transfer_complete_flag: InterruptState::Raised,
                ..self
            }),
            StreamOutcome::TransferError => (StreamState {
                transfer_error_flag: InterruptState::Raised,
                ..self
            }),
            StreamOutcome::DirectModeError => (StreamState {
                direct_mode_error_flag: InterruptState::Raised,
                ..self
            }),
        }
    }
}

/// One slot of the register file changed: `post` has the same length as
/// `pre`, agrees with it everywhere but at `i`, and holds `v` there.
pub open spec fn streams_updated(
    pre: Seq<StreamState>,
    post: Seq<StreamState>,
    i: int,
    v: StreamState,
) -> bool {
    &&& post.len() == pre.len()
    &&& forall|j: int| 0 <= j < pre.len() && j != i ==> post[j] == pre[j]
    &&& post[i] == v
}

/// Shadow register file of one DMA engine: eight streams.
pub struct DmaController {
    pub streams: Vec<StreamState>,
}

impl DmaController {
    /// An engine always has exactly eight streams.
    pub open spec fn wf(&self) -> bool {
        self.streams@.len() == 8
    }

    /// A fresh engine with every stream at its reset state.
    pub fn init() -> (c: DmaController)
        ensures
            c.wf(),
            forall|j: int| 0 <= j < 8 ==> c.streams@[j] == StreamState::spec_reset(),
    {
        let mut streams: Vec<StreamState> = Vec::new();
        let mut i: usize = 0;
        while i < 8
            invariant
                streams@.len() == i,
                i <= 8,
                forall|j: int| 0 <= j < i ==> streams@[j] == StreamState::spec_reset(),
            decreases 8 - i,
        {
            streams.push(StreamState::reset());
            i = i + 1;
        }
        DmaController { streams }
    }

    /// One poll's worth of modelled engine progress: an active stream settles,
    /// raising the flag its `outcome` field selects; any other stream is left
    /// untouched.
    pub fn step_stream(&mut self, stream: Stream)
        requires
            old(self).wf(),
        ensures
            final(self).wf(),
            old(self).streams@[stream.spec_index()].spec_is_active() ==> streams_updated(
                old(self).streams@,
                final(self).streams@,
                stream.spec_index(),
                old(self).streams@[stream.spec_index()].with_outcome_flag(),
            ),
            !old(self).streams@[stream.spec_index()].spec_is_active() ==> final(self).streams@
                == old(self).streams@,
    {
        let i = stream.index();
        let s = self.streams[i];
        let active = s.en == StreamControl::Enable && s.transfer_complete_flag
            == InterruptState::NotRaised && s.transfer_error_flag == InterruptState::NotRaised
            && s.direct_mode_error_flag == InterruptState::NotRaised;
        if active {
            let mut s2 = s;
            match s.outcome {
                StreamOutcome::Complete => {
                    s2.transfer_complete_flag = InterruptState::Raised;
                },
                StreamOutcome::TransferError => {
                    s2.transfer_error_flag = InterruptState::Raised;
                },
                StreamOutcome::DirectModeError => {
                    s2.direct_mode_error_flag = InterruptState::Raised;
                },
            }
            self.streams.set(i, s2);
        }
    }

    pub fn sxcr_en(&self, stream: Stream) -> (r: StreamControl)
        requires
            self.wf(),
        ensures
            r == self.streams@[stream.spec_index()].en,
    {
        self.streams[stream.index()].en
    }

    pub fn tcif(&self, stream: Stream) -> (r: InterruptState)
        requires
            self.wf(),
        ensures
            r == self.streams@[stream.spec_index()].transfer_complete_flag,
    {
        self.streams[stream.index()].transfer_complete_flag
    }

    pub fn teif(&self, stream: Stream) -> (r: InterruptState)
        requires
            self.wf(),
        ensures
            r == self.streams@[stream.spec_index()].transfer_error_flag,
    {
        self.streams[stream.index()].transfer_error_flag
    }

    pub fn dmeif(&self, stream: Stream) -> (r: InterruptState)
        requires
            self.wf(),
        ensures
            r == self.streams@[stream.spec_index()].direct_mode_error_flag,
    {
        self.streams[stream.index()].direct_mode_error_flag
    }

    pub fn clear_htif(&mut self, stream: Stream)
        requires
            old(self).wf(),
        ensures
            final(self).wf(),
            streams_updated(
                old(self).streams@,
                final(self).streams@,
                stream.spec_index(),
                (StreamState {
                    half_transfer_flag: InterruptState::NotRaised,
                    ..old(self).streams@[stream.spec_index()]
                }),
            ),
    {
        let i = stream.index();
        let mut s = self.streams[i];
        s.half_transfer_flag = InterruptState::NotRaised;
        self.streams.set(i, s);
    }

    pub fn clear_tcif(&mut self, stream: Stream)
        requires
            old(self).wf(),
        ensures
            final(self).wf(),
            streams_updated(
                old(self).streams@,
                final(self).streams@,
                stream.spec_index(),
                (StreamState {
                    transfer_complete_flag: InterruptState::NotRaised,
                    ..old(self).streams@[stream.spec_index()]
                }),
            ),
    {
        let i = stream.index();
        let mut s = self.streams[i];
        s.transfer_complete_flag = InterruptState::NotRaised;
        self.streams.set(i, s);
    }

    pub fn clear_teif(&mut self, stream: Stream)
        requires
            old(self).wf(),
        ensures
            final(self).wf(),
            streams_updated(
                old(self).streams@,
                final(self).streams@,
                stream.spec_index(),
                (StreamState {
                    transfer_error_flag: InterruptState::NotRaised,
                    ..old(self).streams@[stream.spec_index()]
                }),
            ),
    {
        let i = stream.index();
        let mut s = self.streams[i];
        s.transfer_error_flag = InterruptState::NotRaised;
        self.streams.set(i, s);
    }

    pub fn clear_feif(&mut self, stream: Stream)
        requires
            old(self).wf(),
        ensures
            final(self).wf(),
            streams_updated(
                old(self).streams@,
                final(self).streams@,
                stream.spec_index(),
                (StreamState {
                    fifo_error_flag: InterruptState::NotRaised,
                    ..old(self).streams@[stream.spec_index()]
                }),
            ),
    {
        let i = stream.index();
        let mut s = self.streams[i];
        s.fifo_error_flag = InterruptState::NotRaised;
        self.streams.set(i, s);
    }

    pub fn clear_dmeif(&mut self, stream: Stream)
        requires
            old(self).wf(),
        ensures
            final(self).wf(),
            streams_updated(
                old(self).streams@,
                final(self).streams@,
                stream.spec_index(),
                (StreamState {
                    direct_mode_error_flag: InterruptState::NotRaised,
                    ..old(self).streams@[stream.spec_index()]
                }),
            ),
    {
        let i = stream.index();
        let mut s = self.streams[i];
        s.direct_mode_error_flag = InterruptState::NotRaised;
        self.streams.set(i, s);
    }

    pub fn set_sxcr_en(&mut self, stream: Stream, value: StreamControl)
        requires
            old(self).wf(),
        ensures
            final(self).wf(),
            streams_updated(
                old(self).streams@,
                final(self).streams@,
                stream.spec_index(),
                (StreamState { en: value, ..old(self).streams@[stream.spec_index()] }),
            ),
    {
        let i = stream.index();
        let mut s = self.streams[i];
        s.en = value;
        self.streams.set(i, s);
    }

    pub fn set_sxcr_channel(&mut self, stream: Stream, value: Channel)
        requires
            old(self).wf(),
        ensures
            final(self).wf(),
            streams_updated(
                old(self).streams@,
                final(self).streams@,
                stream.spec_index(),
                (StreamState { channel: value, ..old(self).streams@[stream.spec_index()] }),
            ),
    {
        let i = stream.index();
        let mut s = self.streams[i];
        s.channel = value;
        self.streams.set(i, s);
    }

    pub fn set_sxcr_pl(&mut self, stream: Stream, value: PriorityLevel)
        requires
            old(self).wf(),
        ensures
            final(self).wf(),
            streams_updated(
                old(self).streams@,
                final(self).streams@,
                stream.spec_index(),
                (StreamState { priority: value, ..old(self).streams@[stream.spec_index()] }),
            ),
    {
        let i = stream.index();
        let mut s = self.streams[i];
        s.priority = value;
        self.streams.set(i, s);
    }

    pub fn set_sxcr_dir(&mut self, stream: Stream, value: Direction)
        requires
            old(self).wf(),
        ensures
            final(self).wf(),
            streams_updated(
                old(self).streams@,
                final(self).streams@,
                stream.spec_index(),
                (StreamState { direction: value, ..old(self).streams@[stream.spec_index()] }),
            ),
    {
        let i = stream.index();
        let mut s = self.streams[i];
        s.direction = value;
        self.streams.set(i, s);
    }

    pub fn set_sxcr_circ(&mut self, stream: Stream, value: CircularMode)
        requires
            old(self).wf(),
        ensures
            final(self).wf(),
            streams_updated(
                old(self).streams@,
                final(self).streams@,
                stream.spec_index(),
                (StreamState { circular_mode: value, ..old(self).streams@[stream.spec_index()] }),
            ),
    {
        let i = stream.index();
        let mut s = self.streams[i];
        s.circular_mode = value;
        self.streams.set(i, s);
    }

    pub fn set_sxcr_dbm(&mut self, stream: Stream, value: DoubleBufferingMode)
        requires
            old(self).wf(),
        ensures
            final(self).wf(),
            streams_updated(
                old(self).streams@,
                final(self).streams@,
                stream.spec_index(),
                (StreamState {
                    double_buffering_mode: value,
                    ..old(self).streams@[stream.spec_index()]
                }),
            ),
    {
        let i = stream.index();
        let mut s = self.streams[i];
        s.double_buffering_mode = value;
        self.streams.set(i, s);
    }

    pub fn set_sxcr_pfctrl(&mut self, stream: Stream, value: FlowContoller)
        requires
            old(self).wf(),
        ensures
            final(self).wf(),
            streams_updated(
                old(self).streams@,
                final(self).streams@,
                stream.spec_index(),
                (StreamState { flow_controller: value, ..old(self).streams@[stream.spec_index()] }),
            ),
    {
        let i = stream.index();
        let mut s = self.streams[i];
        s.flow_controller = value;
        self.streams.set(i, s);
    }

    pub fn set_sxcr_psize(&mut self, stream: Stream, value: Width)
        requires
            old(self).wf(),
        ensures
            final(self).wf(),
            streams_updated(
                old(self).streams@,
                final(self).streams@,
                stream.spec_index(),
                (StreamState {
                    peripheral_width: value,
                    ..old(self).streams@[stream.spec_index()]
                }),
            ),
    {
        let i = stream.index();
        let mut s = self.streams[i];
        s.peripheral_width = value;
        self.streams.set(i, s);
    }

    pub fn set_sxcr_pinc(&mut self, stream: Stream, value: IncrementMode)
        requires
            old(self).wf(),
        ensures
            final(self).wf(),
            streams_updated(
                old(self).streams@,
                final(self).streams@,
                stream.spec_index(),
                (StreamState {
                    peripheral_increment: value,
                    ..old(self).streams@[stream.spec_index()]
                }),
            ),
    {
        let i = stream.index();
        let mut s = self.streams[i];
        s.peripheral_increment = value;
        self.streams.set(i, s);
    }

    pub fn set_sxcr_pburst(&mut self, stream: Stream, value: BurstMode)
        requires
            old(self).wf(),
        ensures
            final(self).wf(),
            streams_updated(
                old(self).streams@,
                final(self).streams@,
                stream.spec_index(),
                (StreamState {
                    peripheral_burst: value,
                    ..old(self).streams@[stream.spec_index()]
                }),
            ),
    {
        let i = stream.index();
        let mut s = self.streams[i];
        s.peripheral_burst = value;
        self.streams.set(i, s);
    }

    pub fn set_sxcr_pincos(&mut self, stream: Stream, value: PeripheralIncrementOffsetSize)
        requires
            old(self).wf(),
        ensures
            final(self).wf(),
            streams_updated(
                old(self).streams@,
                final(self).streams@,
                stream.spec_index(),
                (StreamState {
                    peripheral_increment_offset_size: value,
                    ..old(self).streams@[stream.spec_index()]
                }),
            ),
    {
        let i = stream.index();
        let mut s = self.streams[i];
        s.peripheral_increment_offset_size = value;
        self.streams.set(i, s);
    }

    pub fn set_sxpar(&mut self, stream: Stream, address: u32)
        requires
            old(self).wf(),
        ensures
            final(self).wf(),
            streams_updated(
                old(self).streams@,
                final(self).streams@,
                stream.spec_index(),
                (StreamState {
                    peripheral_address: address,
                    ..old(self).streams@[stream.spec_index()]
                }),
            ),
    {
        let i = stream.index();
        let mut s = self.streams[i];
        s.peripheral_address = address;
        self.streams.set(i, s);
    }

    pub fn set_sxcr_msize(&mut self, stream: Stream, value: Width)
        requires
            old(self).wf(),
        ensures
            final(self).wf(),
            streams_updated(
                old(self).streams@,
                final(self).streams@,
                stream.spec_index(),
                (StreamState { memory_width: value, ..old(self).streams@[stream.spec_index()] }),
            ),
    {
        let i = stream.index();
        let mut s = self.streams[i];
        s.memory_width = value;
        self.streams.set(i, s);
    }

    pub fn set_sxcr_minc(&mut self, stream: Stream, value: IncrementMode)
        requires
            old(self).wf(),
        ensures
            final(self).wf(),
            streams_updated(
                old(self).streams@,
                final(self).streams@,
                stream.spec_index(),
                (StreamState {
                    memory_increment: value,
                    ..old(self).streams@[stream.spec_index()]
                }),
            ),
    {
        let i = stream.index();
        let mut s = self.streams[i];
        s.memory_increment = value;
        self.streams.set(i, s);
    }

    pub fn set_sxcr_mburst(&mut self, stream: Stream, value: BurstMode)
        requires
            old(self).wf(),
        ensures
            final(self).wf(),
            streams_updated(
                old(self).streams@,
                final(self).streams@,
                stream.spec_index(),
                (StreamState { memory_burst: value, ..old(self).streams@[stream.spec_index()] }),
            ),
    {
        let i = stream.index();
        let mut s = self.streams[i];
        s.memory_burst = value;
        self.streams.set(i, s);
    }

    pub fn set_sxmxar(&mut self, stream: Stream, index: MemoryIndex, address: u32)
        requires
            old(self).wf(),
        ensures
            final(self).wf(),
            index == MemoryIndex::M0 ==> streams_updated(
                old(self).streams@,
                final(self).streams@,
                stream.spec_index(),
                (StreamState {
                    memory0_address: address,
                    ..old(self).streams@[stream.spec_index()]
                }),
            ),
            index == MemoryIndex::M1 ==> streams_updated(
                old(self).streams@,
                final(self).streams@,
                stream.spec_index(),
                (StreamState {
                    memory1_address: address,
                    ..old(self).streams@[stream.spec_index()]
                }),
            ),
    {
        let i = stream.index();
        let mut s = self.streams[i];
        match index {
            MemoryIndex::M0 => {
                s.memory0_address = address;
            },
            MemoryIndex::M1 => {
                s.memory1_address = address;
            },
        }
        self.streams.set(i, s);
    }

    pub fn set_sxndtr(&mut self, stream: Stream, count: u16)
        requires
            old(self).wf(),
        ensures
            final(self).wf(),
            streams_updated(
                old(self).streams@,
                final(self).streams@,
                stream.spec_index(),
                (StreamState {
                    transaction_count: count,
                    ..old(self).streams@[stream.spec_index()]
                }),
            ),
    {
        let i = stream.index();
        let mut s = self.streams[i];
        s.transaction_count = count;
        self.streams.set(i, s);
    }

    pub fn set_sxfcr_dmdis(&mut self, stream: Stream, value: DirectMode)
        requires
            old(self).wf(),
        ensures
            final(self).wf(),
            streams_updated(
                old(self).streams@,
                final(self).streams@,
                stream.spec_index(),
                (StreamState { direct_mode: value, ..old(self).streams@[stream.spec_index()] }),
            ),
    {
        let i = stream.index();
        let mut s = self.streams[i];
        s.direct_mode = value;
        self.streams.set(i, s);
    }

    pub fn set_sxfcr_fth(&mut self, stream: Stream, value: FifoThreshold)
        requires
            old(self).wf(),
        ensures
            final(self).wf(),
            streams_updated(
                old(self).streams@,
                final(self).streams@,
                stream.spec_index(),
                (StreamState { fifo_threshold: value, ..old(self).streams@[stream.spec_index()] }),
            ),
    {
        let i = stream.index();
        let mut s = self.streams[i];
        s.fifo_threshold = value;
        self.streams.set(i, s);
    }

    pub fn set_sxcr_tcie(&mut self, stream: Stream, value: InterruptControl)
        requires
            old(self).wf(),
        ensures
            final(self).wf(),
            streams_updated(
                old(self).streams@,
                final(self).streams@,
                stream.spec_index(),
                (StreamState {
                    transfer_complete_interrupt: value,
                    ..old(self).streams@[stream.spec_index()]
                }),
            ),
    {
        let i = stream.index();
        let mut s = self.streams[i];
        s.transfer_complete_interrupt = value;
        self.streams.set(i, s);
    }

    pub fn set_sxcr_htie(&mut self, stream: Stream, value: InterruptControl)
        requires
            old(self).wf(),
        ensures
            final(self).wf(),
            streams_updated(
                old(self).streams@,
                final(self).streams@,
                stream.spec_index(),
                (StreamState {
                    half_transfer_interrupt: value,
                    ..old(self).streams@[stream.spec_index()]
                }),
            ),
    {
        let i = stream.index();
        let mut s = self.streams[i];
        s.half_transfer_interrupt = value;
        self.streams.set(i, s);
    }

    pub fn set_sxcr_teie(&mut self, stream: Stream, value: InterruptControl)
        requires
            old(self).wf(),
        ensures
            final(self).wf(),
            streams_updated(
                old(self).streams@,
                final(self).streams@,
                stream.spec_index(),
                (StreamState {
                    transfer_error_interrupt: value,
                    ..old(self).streams@[stream.spec_index()]
                }),
            ),
    {
        let i = stream.index();
        let mut s = self.streams[i];
        s.transfer_error_interrupt = value;
        self.streams.set(i, s);
    }

    pub fn set_sxcr_dmeie(&mut self, stream: Stream, value: InterruptControl)
        requires
            old(self).wf(),
        ensures
            final(self).wf(),
            streams_updated(
                old(self).streams@,
                final(self).streams@,
                stream.spec_index(),
                (StreamState {
                    direct_mode_error_interrupt: value,
                    ..old(self).streams@[stream.spec_index()]
                }),
            ),
    {
        let i = stream.index();
        let mut s = self.streams[i];
        s.direct_mode_error_interrupt = value;
        self.streams.set(i, s);
    }

    pub fn set_sxfcr_feie(&mut self, stream: Stream, value: InterruptControl)
        requires
            old(self).wf(),
        ensures
            final(self).wf(),
            streams_updated(
                old(self).streams@,
                final(self).streams@,
                stream.spec_index(),
                (StreamState {
                    fifo_error_interrupt: value,
                    ..old(self).streams@[stream.spec_index()]
                }),
            ),
    {
        let i = stream.index();
        let mut s = self.streams[i];
        s.fifo_error_interrupt = value;
        self.streams.set(i, s);
    }
}

/// Model of the bus clock-enable register: one enable bit per DMA engine,
/// whose readback is the bit itself.
#[derive(Clone, Copy, Debug, PartialEq, Eq, Structural)]
pub struct Rcc {
    pub dma1en: bool,
    pub dma2en: bool,
}

/// Owner of one physical DMA engine's register file. A descriptor never owns
/// the manager; callers pass it by exclusive reference per mutation, which
/// keeps "one engine owner, many non-owning borrowers" checked at compile
/// time.
pub struct DmaManager {
    pub controller: DmaController,
}

impl DmaManager {
    pub open spec fn wf(&self) -> bool {
        self.controller.wf()
    }

    /// Brings up the first engine: sets its clock-enable bit, busy-waits for
    /// the readback to confirm it, and hands back the engine with every
    /// stream at reset.
    pub fn init_dma1(rcc: &mut Rcc) -> (m: DmaManager)
        ensures
            final(rcc).dma1en,
            final(rcc).dma2en == old(rcc).dma2en,
            m.wf(),
            forall|j: int| 0 <= j < 8 ==> m.controller.streams@[j] == StreamState::spec_reset(),
    {
        rcc.dma1en = true;
        while !rcc.dma1en
            invariant
                rcc.dma1en,
            decreases 0int,
        {
        }
        DmaManager { controller: DmaController::init() }
    }

    /// Brings up the second engine, as [`DmaManager::init_dma1`] does the
    /// first.
    pub fn init_dma2(rcc: &mut Rcc) -> (m: DmaManager)
        ensures
            final(rcc).dma2en,
            final(rcc).dma1en == old(rcc).dma1en,
            m.wf(),
            forall|j: int| 0 <= j < 8 ==> m.controller.streams@[j] == StreamState::spec_reset(),
    {
        rcc.dma2en = true;
        while !rcc.dma2en
            invariant
                rcc.dma2en,
            decreases 0int,
        {
        }
        DmaManager { controller: DmaController::init() }
    }
}

} // verus!
