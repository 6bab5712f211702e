//! The initialization of a VirtIO GPU.
//!
//! [`GpuInit`] says what to do next with the device's transport; whoever runs it does so and
//! reports what came of it.

use crate::error::Error;
use crate::gpu::model::{Event, Stimulus};
use vstd::prelude::*;

verus! {

/// Virgl 3D mode is supported.
pub const FEATURE_VIRGL: u64 = 0x1;

/// Descriptors may be indirect.
pub const FEATURE_RING_INDIRECT_DESC: u64 = 0x1000_0000;

/// The queues suppress notifications by index.
pub const FEATURE_RING_EVENT_IDX: u64 = 0x2000_0000;

/// The device is not a legacy device.
pub const FEATURE_VERSION_1: u64 = 0x1_0000_0000;

/// The features that the driver supports.
pub const SUPPORTED_FEATURES: u64 = 0x1_3000_0001;

/// The number of descriptors of a queue.
pub const QUEUE_SIZE: u16 = 16;

/// The queue of the control commands.
pub const QUEUE_TRANSMIT: u16 = 0;

/// The queue of the cursor commands.
pub const QUEUE_CURSOR: u16 = 1;

/// Where the configuration space tells the pending events.
pub const CONFIG_EVENTS_READ: usize = 0;

/// Where the configuration space tells the number of scanouts.
pub const CONFIG_NUM_SCANOUTS: usize = 8;

/// What is to be done next.
#[derive(Clone, Copy, Debug, PartialEq, Eq)]
pub enum InitTask {
    /// Begin the initialization and negotiate features.
    Negotiate { supported: u64 },
    /// Read a word of the device's configuration space.
    ReadConfig { offset: usize },
    /// Create a queue.
    CreateQueue { index: u16, size: u16, indirect: bool, event_idx: bool },
    /// Make the driver's buffers and finish the initialization.
    Finish,
    /// Nothing more.
    Done { result: Result<(), Error> },
}

/// What came of a task.
#[derive(Clone, Copy, Debug, PartialEq, Eq)]
pub enum InitReport {
    /// The negotiated features.
    Negotiated { features: u64 },
    /// The word, or an error.
    Config { word: Result<u32, Error> },
    /// The queue is there, or not.
    Queue { result: Result<(), Error> },
    /// The device is live.
    Finished,
}

/// The stage of an initialization.
#[derive(Clone, Copy, Debug, PartialEq, Eq)]
pub enum InitStage {
    Negotiating,
    ReadingEvents,
    ReadingScanouts,
    CreatingControlQueue,
    CreatingCursorQueue,
    Finishing,
    Done { result: Result<(), Error> },
}

/// How far an initialization has come.
#[derive(Clone, Copy, Debug, PartialEq, Eq)]
pub struct GpuInit {
    pub stage: InitStage,
    /// The negotiated features.
    pub features: u64,
    /// The pending events of the device.
    pub events_read: u32,
    /// The number of scanouts of the device.
    pub num_scanouts: u32,
}

/// The features contain a feature.
pub open spec fn has_feature(features: u64, feature: u64) -> bool {
    features & feature == feature
}

impl GpuInit {
    /// An initialization that has not begun.
    pub open spec fn initial() -> GpuInit {
        GpuInit { stage: InitStage::Negotiating, features: 0, events_read: 0, num_scanouts: 0 }
    }

    /// What is to be done at this stage.
    pub open spec fn asks(self) -> InitTask {
        match self.stage {
            InitStage::Negotiating => InitTask::Negotiate { supported: SUPPORTED_FEATURES },
            InitStage::ReadingEvents => InitTask::ReadConfig { offset: CONFIG_EVENTS_READ },
            InitStage::ReadingScanouts => InitTask::ReadConfig { offset: CONFIG_NUM_SCANOUTS },
            InitStage::CreatingControlQueue => InitTask::CreateQueue {
                index: QUEUE_TRANSMIT,
                size: QUEUE_SIZE,
                indirect: has_feature(self.features, FEATURE_RING_INDIRECT_DESC),
                event_idx: has_feature(self.features, FEATURE_RING_EVENT_IDX),
            },
            InitStage::CreatingCursorQueue => InitTask::CreateQueue {
                index: QUEUE_CURSOR,
                size: QUEUE_SIZE,
                indirect: has_feature(self.features, FEATURE_RING_INDIRECT_DESC),
                event_idx: has_feature(self.features, FEATURE_RING_EVENT_IDX),
            },
            InitStage::Finishing => InitTask::Finish,
            InitStage::Done { result } => InitTask::Done { result },
        }
    }

    /// The report is one on the task.
    pub open spec fn takes(self, report: InitReport) -> bool {
        match report {
            InitReport::Negotiated { .. } => self.stage is Negotiating,
            InitReport::Config { .. } => self.stage is ReadingEvents || self.stage
                is ReadingScanouts,
            InitReport::Queue { .. } => self.stage is CreatingControlQueue || self.stage
                is CreatingCursorQueue,
            InitReport::Finished => self.stage is Finishing,
        }
    }

    /// The state after a report. Any error ends the initialization.
    pub open spec fn react(self, report: InitReport) -> GpuInit {
        match report {
            InitReport::Negotiated { features } => GpuInit {
                stage: InitStage::ReadingEvents,
                features,
                ..self
            },
            InitReport::Config { word } => match word {
                Err(error) => GpuInit { stage: InitStage::Done { result: Err(error) }, ..self },
                Ok(word) => if self.stage is ReadingEvents {
                    GpuInit {
                        stage: InitStage::ReadingScanouts,
                        events_read: word,
                        ..self
                    }
                } else {
                    GpuInit {
                        stage: InitStage::CreatingControlQueue,
                        num_scanouts: word,
                        ..self
                    }
                },
            },
            InitReport::Queue { result } => match result {
                Err(error) => GpuInit { stage: InitStage::Done { result: Err(error) }, ..self },
                Ok(_) => if self.stage is CreatingControlQueue {
                    GpuInit { stage: InitStage::CreatingCursorQueue, ..self }
                } else {
                    GpuInit { stage: InitStage::Finishing, ..self }
                },
            },
            InitReport::Finished => GpuInit { stage: InitStage::Done { result: Ok(()) }, ..self },
        }
    }

    /// An initialization that has not begun.
    pub fn new() -> (init: GpuInit)
        ensures
            init == GpuInit::initial(),
    {
        GpuInit { stage: InitStage::Negotiating, features: 0, events_read: 0, num_scanouts: 0 }
    }

    /// What is to be done next.
    pub fn task(&self) -> (task: InitTask)
        ensures
            task == self.asks(),
    {
        let indirect = contains(self.features, FEATURE_RING_INDIRECT_DESC);
        let event_idx = contains(self.features, FEATURE_RING_EVENT_IDX);
        match self.stage {
            InitStage::Negotiating => InitTask::Negotiate { supported: SUPPORTED_FEATURES },
            InitStage::ReadingEvents => InitTask::ReadConfig { offset: CONFIG_EVENTS_READ },
            InitStage::ReadingScanouts => InitTask::ReadConfig { offset: CONFIG_NUM_SCANOUTS },
            InitStage::CreatingControlQueue => InitTask::CreateQueue {
                index: QUEUE_TRANSMIT,
                size: QUEUE_SIZE,
                indirect,
                event_idx,
            },
            InitStage::CreatingCursorQueue => InitTask::CreateQueue {
                index: QUEUE_CURSOR,
                size: QUEUE_SIZE,
                indirect,
                event_idx,
            },
            InitStage::Finishing => InitTask::Finish,
            InitStage::Done { result } => InitTask::Done { result },
        }
    }

    /// Whether a report is one on the task.
    pub fn accepts(&self, report: &InitReport) -> (accepted: bool)
        ensures
            accepted == self.takes(*report),
    {
        match report {
            InitReport::Negotiated { .. } => matches!(self.stage, InitStage::Negotiating),
            InitReport::Config { .. } => matches!(
                self.stage,
                InitStage::ReadingEvents | InitStage::ReadingScanouts
            ),
            InitReport::Queue { .. } => matches!(
                self.stage,
                InitStage::CreatingControlQueue | InitStage::CreatingCursorQueue
            ),
            InitReport::Finished => matches!(self.stage, InitStage::Finishing),
        }
    }

    /// Takes the report on the task.
    pub fn resume(&mut self, report: InitReport)
        requires
            old(self).takes(report),
        ensures
            *final(self) == old(self).react(report),
    {
        match report {
            InitReport::Negotiated { features } => {
                self.features = features;
                self.stage = InitStage::ReadingEvents;
            },
            InitReport::Config { word } => match word {
                Err(error) => {
                    self.stage = InitStage::Done { result: Err(error) };
                },
                Ok(word) => {
                    if matches!(self.stage, InitStage::ReadingEvents) {
                        self.events_read = word;
                        self.stage = InitStage::ReadingScanouts;
                    } else {
                        self.num_scanouts = word;
                        self.stage = InitStage::CreatingControlQueue;
                    }
                },
            },
            InitReport::Queue { result } => match result {
                Err(error) => {
                    self.stage = InitStage::Done { result: Err(error) };
                },
                Ok(_) => {
                    if matches!(self.stage, InitStage::CreatingControlQueue) {
                        self.stage = InitStage::CreatingCursorQueue;
                    } else {
                        self.stage = InitStage::Finishing;
                    }
                },
            },
            InitReport::Finished => {
                self.stage = InitStage::Done { result: Ok(()) };
            },
        }
    }
}

/// Whether the features contain a feature.
pub fn contains(features: u64, feature: u64) -> (contained: bool)
    ensures
        contained == has_feature(features, feature),
{
    features & feature == feature
}

/// The driver supports what it names, and nothing else.
pub proof fn supported_features(feature: u64)
    requires
        feature == FEATURE_VIRGL || feature == FEATURE_RING_INDIRECT_DESC || feature
            == FEATURE_RING_EVENT_IDX || feature == FEATURE_VERSION_1,
    ensures
        has_feature(SUPPORTED_FEATURES, feature),
        SUPPORTED_FEATURES == FEATURE_VIRGL + FEATURE_RING_INDIRECT_DESC + FEATURE_RING_EVENT_IDX
            + FEATURE_VERSION_1,
{
    assert(0x1_3000_0001u64 & 0x1 == 0x1 && 0x1_3000_0001u64 & 0x1000_0000 == 0x1000_0000
        && 0x1_3000_0001u64 & 0x2000_0000 == 0x2000_0000 && 0x1_3000_0001u64 & 0x1_0000_0000
        == 0x1_0000_0000) by (bit_vector);
}

/// An initialization in which nothing fails: the device is made live only after both queues
/// have been created, each with the features that were negotiated.
pub proof fn successful_initialization(features: u64, events_read: u32, num_scanouts: u32)
    ensures
        ({
            let negotiated = GpuInit::initial().react(InitReport::Negotiated { features });
            let events = negotiated.react(InitReport::Config { word: Ok(events_read) });
            let scanouts = events.react(InitReport::Config { word: Ok(num_scanouts) });
            let control = scanouts.react(InitReport::Queue { result: Ok(()) });
            let cursor = control.react(InitReport::Queue { result: Ok(()) });
            let done = cursor.react(InitReport::Finished);
            let indirect = has_feature(features, FEATURE_RING_INDIRECT_DESC);
            let event_idx = has_feature(features, FEATURE_RING_EVENT_IDX);
            &&& scanouts.asks() == InitTask::CreateQueue {
                index: QUEUE_TRANSMIT,
                size: QUEUE_SIZE,
                indirect,
                event_idx,
            }
            &&& control.asks() == InitTask::CreateQueue {
                index: QUEUE_CURSOR,
                size: QUEUE_SIZE,
                indirect,
                event_idx,
            }
            &&& cursor.asks() == InitTask::Finish
            &&& done == GpuInit {
                stage: InitStage::Done { result: Ok(()) },
                features,
                events_read,
                num_scanouts,
            }
        }),
{
}

/// An error of the configuration space or of a queue is the result of the initialization.
pub proof fn initialization_error(init: GpuInit, error: Error)
    ensures
        init.takes(InitReport::Config { word: Err(error) }) ==> init.react(
            InitReport::Config { word: Err(error) },
        ).asks() == (InitTask::Done { result: Err(error) }),
        init.takes(InitReport::Queue { result: Err(error) }) ==> init.react(
            InitReport::Queue { result: Err(error) },
        ).asks() == (InitTask::Done { result: Err(error) }),
{
}

/// The fences of a driver.
#[derive(Debug)]
pub struct FenceCounter {
    next: u64,
}

impl View for FenceCounter {
    type V = u64;

    /// The next fence.
    closed spec fn view(&self) -> u64 {
        self.next
    }
}

/// The fence that a counter gives after it has given `count` others.
pub open spec fn fence_after(count: nat) -> nat {
    count + 1
}

impl FenceCounter {
    /// The first fence is 1.
    pub fn new() -> (fences: FenceCounter)
        ensures
            fences@ == fence_after(0),
    {
        FenceCounter { next: 1 }
    }

    /// Draws a fence. No two fences of a counter are equal.
    pub fn take(&mut self) -> (fence: u64)
        requires
            old(self)@ < u64::MAX,
        ensures
            fence == old(self)@,
            final(self)@ == old(self)@ + 1,
    {
        let fence = self.next;
        self.next = fence + 1;
        fence
    }

    /// The event that answers a demand for halved extents, with a fence of its own.
    pub fn scaled(&mut self, half_width: u32, half_height: u32) -> (event: Event)
        requires
            old(self)@ < u64::MAX,
        ensures
            event@ == (Stimulus::Scaled { half_width, half_height, fence: old(self)@ }),
            final(self)@ == old(self)@ + 1,
    {
        let fence: u64 = self.take();
        Event::Scaled { half_width, half_height, fence }
    }
}

/// A feature is contained exactly if its bit is set.
pub proof fn features_are_bits(features: u64, contained: bool)
    ensures
        call_ensures(contains, (features, FEATURE_RING_INDIRECT_DESC), contained) ==> (contained
            <==> features as int / 0x1000_0000 % 2 == 1),
        call_ensures(contains, (features, FEATURE_RING_EVENT_IDX), contained) ==> (contained
            <==> features as int / 0x2000_0000 % 2 == 1),
        call_ensures(contains, (features, FEATURE_VIRGL), contained) ==> (contained <==> features
            as int % 2 == 1),
        call_ensures(contains, (features, FEATURE_VERSION_1), contained) ==> (contained
            <==> features as int / 0x1_0000_0000 % 2 == 1),
{
    assert((features & 0x1000_0000 == 0x1000_0000) == (features / 0x1000_0000 % 2 == 1) && (features
        & 0x2000_0000 == 0x2000_0000) == (features / 0x2000_0000 % 2 == 1) && (features & 1 == 1)
        == (features % 2 == 1) && (features & 0x1_0000_0000 == 0x1_0000_0000) == (features
        / 0x1_0000_0000 % 2 == 1)) by (bit_vector);
}

/// The initialization, task by task: the features are offered, the pending events and the
/// number of scanouts are read, the control queue and then the cursor queue are created with 16
/// descriptors each and as was negotiated, and then the device is made live.
pub proof fn initialization_takes_its_course(features: u64, events: u32, scanouts: u32)
    ensures
        ({
            let s0 = GpuInit::initial();
            let s1 = s0.react(InitReport::Negotiated { features });
            let s2 = s1.react(InitReport::Config { word: Ok(events) });
            let s3 = s2.react(InitReport::Config { word: Ok(scanouts) });
            let s4 = s3.react(InitReport::Queue { result: Ok(()) });
            let s5 = s4.react(InitReport::Queue { result: Ok(()) });
            let end = s5.react(InitReport::Finished);
            let indirect = features as int / 0x1000_0000 % 2 == 1;
            let event_idx = features as int / 0x2000_0000 % 2 == 1;
            &&& s0.asks() == (InitTask::Negotiate { supported: 0x1_3000_0001 })
            &&& s1.asks() == (InitTask::ReadConfig { offset: 0 })
            &&& s2.asks() == (InitTask::ReadConfig { offset: 8 })
            &&& s3.asks() == (InitTask::CreateQueue { index: 0, size: 16, indirect, event_idx })
            &&& s4.asks() == (InitTask::CreateQueue { index: 1, size: 16, indirect, event_idx })
            &&& s5.asks() is Finish
            &&& end.asks() == (InitTask::Done { result: Ok(()) })
            &&& end.features == features
            &&& end.events_read == events
            &&& end.num_scanouts == scanouts
        }),
{
    assert((features & 0x1000_0000 == 0x1000_0000) == (features / 0x1000_0000 % 2 == 1) && (features
        & 0x2000_0000 == 0x2000_0000) == (features / 0x2000_0000 % 2 == 1)) by (bit_vector);
}

/// Every report on a task is taken.
pub proof fn reports_on_the_task_are_taken(init: GpuInit, report: InitReport)
    ensures
        init.takes(report) <==> match report {
            InitReport::Negotiated { .. } => init.asks() is Negotiate,
            InitReport::Config { .. } => init.asks() is ReadConfig,
            InitReport::Queue { .. } => init.asks() is CreateQueue,
            InitReport::Finished => init.asks() is Finish,
        },
{
}

/// The fences of a counter are 1, 2, 3 and so on.
pub proof fn fences_count_up(count: nat, fences: FenceCounter)
    ensures
        fence_after(count) == count + 1,
        call_ensures(FenceCounter::new, (), fences) ==> fences@ == 1,
{
}

} // verus!
