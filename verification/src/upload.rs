//! The upload of subresources through a staging buffer, as a machine that
//! decides and leaves every call into the graphics API to its caller.
//!
//! An upload begins with `update_subresources` or
//! `update_subresources_stack_alloc`, which hand back a state and the first
//! action. The caller performs the action, tells the machine what came of it
//! with `UploadState::advance`, and gets the next action, until the action is
//! `Finish`.
//!
//! The machine records nothing and waits for nothing itself. The commands
//! that it asks for are carried out by the GPU later, when the caller submits
//! them. Until the GPU is done with them, the caller must keep the
//! intermediate resource alive and must not write to it. During an upload
//! nobody else may write to the mapped memory or record into the command
//! list.

use vstd::prelude::*;
use crate::commands::{
    cd3dx12_texture_copy_location_footprint, cd3dx12_texture_copy_location_sub, CopyCommand,
    TextureCopyLocation, UploadResource,
};
use crate::footprint::{CopyableFootprints, ResourceDimension, SubresourceLayout};
use crate::memcpy::SubresourceData;
use crate::staging::{first_blocked, stage_subresources, staged};

verus! {

/// Why an upload ended without a transfer.
#[derive(Clone, Copy, Debug, PartialEq, Eq, Structural)]
pub enum UploadError {
    /// A call into the graphics API failed with this result code.
    ExternalApiFailure { code: i32 },
    /// The transfer cannot be carried out as asked.
    InfeasibleTransfer,
}

/// An event in the life of an upload: what came of the action that the machine
/// asked for last.
#[derive(Debug, PartialEq, Eq)]
pub enum UploadEvent {
    /// The device has answered the query for copyable footprints. The event
    /// also tells what the two resources are.
    FootprintsReady {
        destination: ResourceDimension,
        intermediate: ResourceDimension,
        intermediate_width: u64,
        footprints: CopyableFootprints,
    },
    /// The intermediate resource is mapped.
    Mapped,
    /// The intermediate resource is no longer mapped.
    Unmapped,
    /// The copy commands are recorded.
    Recorded,
    /// The call that the last action asked for failed with this result code.
    Failed { code: i32 },
}

/// What the caller is to do next.
#[derive(Debug, PartialEq, Eq)]
pub enum UploadAction {
    /// Ask the device of the destination for the copyable footprints of
    /// `num_subresources` subresources from `first_subresource` on, laid out
    /// from `base_offset` on.
    QueryFootprints { first_subresource: u32, num_subresources: u32, base_offset: u64 },
    /// Map the intermediate resource for writing.
    MapIntermediate,
    /// Unmap the intermediate resource.
    UnmapIntermediate,
    /// Record these copy commands, in order.
    Record { commands: Vec<CopyCommand> },
    /// The upload is over. On success the result is the number of bytes that
    /// the transfer needed in the intermediate resource.
    Finish { result: Result<u64, UploadError> },
}

/// An action as contracts speak of it, with the commands as a sequence.
pub enum UploadActionView {
    QueryFootprints { first_subresource: u32, num_subresources: u32, base_offset: u64 },
    MapIntermediate,
    UnmapIntermediate,
    Record { commands: Seq<CopyCommand> },
    Finish { result: Result<u64, UploadError> },
}

impl View for UploadAction {
    type V = UploadActionView;

    open spec fn view(&self) -> UploadActionView {
        match *self {
            UploadAction::QueryFootprints { first_subresource, num_subresources, base_offset } => {
                UploadActionView::QueryFootprints {
                    first_subresource,
                    num_subresources,
                    base_offset,
                }
            },
            UploadAction::MapIntermediate => UploadActionView::MapIntermediate,
            UploadAction::UnmapIntermediate => UploadActionView::UnmapIntermediate,
            UploadAction::Record { commands } => UploadActionView::Record { commands: commands@ },
            UploadAction::Finish { result } => UploadActionView::Finish { result },
        }
    }
}

/// The view of an action that may be absent.
pub open spec fn action_view(action: Option<UploadAction>) -> Option<UploadActionView> {
    match action {
        Some(action) => Some(action@),
        None => None,
    }
}

/// The transfer can be carried out:
/// - there is at least one subresource, and the device gave one layout for
///   each;
/// - the indices of the subresources do not leave `u32`;
/// - the intermediate resource is a buffer;
/// - it holds the bytes that the transfer needs, counted from the offset of
///   the first layout and counted from the offset that was asked for;
/// - that number of bytes is addressable;
/// - into a buffer goes one subresource only, the one of index 0.
pub open spec fn transfer_feasible(
    destination: ResourceDimension,
    intermediate: ResourceDimension,
    intermediate_width: u64,
    intermediate_offset: u64,
    first_subresource: u32,
    num_subresources: int,
    footprints: CopyableFootprints,
) -> bool {
    &&& num_subresources >= 1
    &&& footprints.layouts@.len() == num_subresources
    &&& first_subresource + num_subresources <= u32::MAX + 1
    &&& intermediate == ResourceDimension::Buffer
    &&& footprints.total_bytes + footprints.layouts@[0].placed.offset <= intermediate_width
    &&& footprints.total_bytes + intermediate_offset <= intermediate_width
    &&& footprints.total_bytes <= usize::MAX
    &&& destination == ResourceDimension::Buffer ==> first_subresource == 0 && num_subresources
        == 1
}

/// The commands that move the staged subresources to the destination.
///
/// Into a buffer goes one region: from the offset of the first layout in the
/// intermediate buffer to the start of the destination, as many bytes as the
/// footprint is wide. Into a texture goes one region for each subresource: from
/// its placed footprint in the intermediate buffer to the subresource of its
/// index, counted from `first_subresource`.
pub open spec fn copy_commands(
    destination: ResourceDimension,
    first_subresource: u32,
    layouts: Seq<SubresourceLayout>,
) -> Seq<CopyCommand> {
    if destination == ResourceDimension::Buffer {
        seq![
            CopyCommand::BufferRegion {
                dst_offset: 0,
                src_offset: layouts[0].placed.offset,
                num_bytes: layouts[0].placed.footprint.width as u64,
            },
        ]
    } else {
        Seq::new(
            layouts.len(),
            |i: int|
                CopyCommand::TextureRegion {
                    dst: TextureCopyLocation::SubresourceIndex {
                        resource: UploadResource::Destination,
                        index: (first_subresource + i) as u32,
                    },
                    dst_x: 0,
                    dst_y: 0,
                    dst_z: 0,
                    src: TextureCopyLocation::PlacedFootprint {
                        resource: UploadResource::Intermediate,
                        footprint: layouts[i].placed,
                    },
                },
        )
    }
}

/// A transfer that was found feasible: what the machine keeps of it until the
/// commands are recorded.
#[derive(Debug)]
pub struct UploadPlan<'a> {
    pub destination: ResourceDimension,
    pub first_subresource: u32,
    pub footprints: CopyableFootprints,
    pub payloads: Vec<SubresourceData<'a>>,
}

impl<'a> UploadPlan<'a> {
    /// The plan holds one layout for each payload, at least one, and names
    /// subresources whose indices do not leave `u32`; into a buffer it takes
    /// one subresource only, the one of index 0.
    pub open spec fn wf(self) -> bool {
        &&& self.payloads@.len() >= 1
        &&& self.footprints.layouts@.len() == self.payloads@.len()
        &&& self.first_subresource + self.payloads@.len() <= u32::MAX + 1
        &&& self.destination == ResourceDimension::Buffer ==> self.first_subresource == 0
            && self.payloads@.len() == 1
    }

    /// Every subresource of the plan can be copied into memory of
    /// `memory_len` bytes.
    pub open spec fn fills(self, memory_len: int) -> bool {
        first_blocked(self.footprints.layouts@, self.payloads@, memory_len)
            == self.footprints.layouts@.len()
    }

    /// `memory` after the subresources of the plan were copied into it, in
    /// order, up to the first one that cannot be copied.
    pub open spec fn staged(self, memory: Seq<u8>) -> Seq<u8> {
        staged(
            memory,
            self.footprints.layouts@,
            self.payloads@,
            first_blocked(self.footprints.layouts@, self.payloads@, memory.len() as int),
        )
    }

    /// The commands that move the staged subresources to the destination.
    pub open spec fn commands(self) -> Seq<CopyCommand> {
        copy_commands(self.destination, self.first_subresource, self.footprints.layouts@)
    }

    /// Whether the plan is well formed.
    pub fn is_well_formed(&self) -> (r: bool)
        ensures
            r == self.wf(),
    {
        let n = self.payloads.len();
        n >= 1 && self.footprints.layouts.len() == n && self.first_subresource as u128 + n as u128
            <= u32::MAX as u128 + 1 && (!(self.destination == ResourceDimension::Buffer) || (
        self.first_subresource == 0 && n == 1))
    }
}

/// Where an upload stands.
#[derive(Debug)]
pub enum UploadState<'a> {
    /// The device was asked for the footprints of the subresources.
    AwaitingFootprints {
        intermediate_offset: u64,
        first_subresource: u32,
        payloads: Vec<SubresourceData<'a>>,
    },
    /// The transfer is feasible, and the intermediate resource is to be
    /// mapped.
    AwaitingMapping { plan: UploadPlan<'a> },
    /// The payloads were copied into the mapped memory, all of them if
    /// `filled`, and the intermediate resource is to be unmapped.
    AwaitingUnmapping { plan: UploadPlan<'a>, filled: bool },
    /// The copy commands are to be recorded.
    AwaitingRecording { total_bytes: u64 },
    /// The upload is over.
    Finished,
}

impl<'a> UploadState<'a> {
    /// The state is one that an upload can be in: it asks for no more
    /// subresources than a `u32` counts, and a plan that it holds is well
    /// formed.
    pub open spec fn wf(self) -> bool {
        match self {
            UploadState::AwaitingFootprints { payloads, .. } => payloads@.len() <= u32::MAX,
            UploadState::AwaitingMapping { plan } => plan.wf(),
            UploadState::AwaitingUnmapping { plan, .. } => plan.wf(),
            UploadState::AwaitingRecording { .. } => true,
            UploadState::Finished => true,
        }
    }

    /// The state that follows when `event` arrives, and the action that the
    /// machine asks for then. `memory_len` is the number of bytes of the
    /// mapped memory. An event that the state does not await changes nothing
    /// and gets no action.
    ///
    /// - While the footprints are awaited: when they arrive, the transfer is
    ///   either feasible, and the intermediate resource is to be mapped, or
    ///   the upload ends as infeasible. A failure ends the upload with its
    ///   code.
    /// - While the mapping is awaited: when the resource is mapped, the
    ///   payloads are copied and the resource is to be unmapped, whether or
    ///   not all of them could be copied. A failure ends the upload with its
    ///   code.
    /// - While the unmapping is awaited: when the resource is unmapped, the
    ///   commands are to be recorded, or, where the copy broke off, the upload
    ///   ends as infeasible.
    /// - While the recording is awaited: when the commands are recorded, the
    ///   upload ends with the number of bytes that the device reported.
    pub open spec fn next(self, event: UploadEvent, memory_len: int) -> (
        UploadState<'a>,
        Option<UploadActionView>,
    ) {
        match self {
            UploadState::AwaitingFootprints { intermediate_offset, first_subresource, payloads } => {
                match event {
                    UploadEvent::FootprintsReady {
                        destination,
                        intermediate,
                        intermediate_width,
                        footprints,
                    } => {
                        if transfer_feasible(
                            destination,
                            intermediate,
                            intermediate_width,
                            intermediate_offset,
                            first_subresource,
                            payloads@.len() as int,
                            footprints,
                        ) {
                            (
                                UploadState::AwaitingMapping {
                                    plan: UploadPlan {
                                        destination,
                                        first_subresource,
                                        footprints,
                                        payloads,
                                    },
                                },
                                Some(UploadActionView::MapIntermediate),
                            )
                        } else {
                            (
                                UploadState::Finished,
                                Some(
                                    UploadActionView::Finish {
                                        result: Err(UploadError::InfeasibleTransfer),
                                    },
                                ),
                            )
                        }
                    },
                    UploadEvent::Failed { code } => (
                        UploadState::Finished,
                        Some(
                            UploadActionView::Finish {
                                result: Err(UploadError::ExternalApiFailure { code }),
                            },
                        ),
                    ),
                    _ => (self, None),
                }
            },
            UploadState::AwaitingMapping { plan } => {
                match event {
                    UploadEvent::Mapped => (
                        UploadState::AwaitingUnmapping { plan, filled: plan.fills(memory_len) },
                        Some(UploadActionView::UnmapIntermediate),
                    ),
                    UploadEvent::Failed { code } => (
                        UploadState::Finished,
                        Some(
                            UploadActionView::Finish {
                                result: Err(UploadError::ExternalApiFailure { code }),
                            },
                        ),
                    ),
                    _ => (self, None),
                }
            },
            UploadState::AwaitingUnmapping { plan, filled } => {
                match event {
                    UploadEvent::Unmapped => {
                        if filled && plan.wf() {
                            (
                                UploadState::AwaitingRecording {
                                    total_bytes: plan.footprints.total_bytes,
                                },
                                Some(UploadActionView::Record { commands: plan.commands() }),
                            )
                        } else {
                            (
                                UploadState::Finished,
                                Some(
                                    UploadActionView::Finish {
                                        result: Err(UploadError::InfeasibleTransfer),
                                    },
                                ),
                            )
                        }
                    },
                    _ => (self, None),
                }
            },
            UploadState::AwaitingRecording { total_bytes } => {
                match event {
                    UploadEvent::Recorded => (
                        UploadState::Finished,
                        Some(UploadActionView::Finish { result: Ok(total_bytes) }),
                    ),
                    _ => (self, None),
                }
            },
            UploadState::Finished => (self, None),
        }
    }

    /// What `advance` leaves in the mapped memory: when the state awaits the
    /// mapping and the event is `Mapped`, the subresources of the plan are
    /// copied in; otherwise memory is not touched.
    pub open spec fn memory_after(self, event: UploadEvent, memory: Seq<u8>) -> Seq<u8> {
        match (self, event) {
            (UploadState::AwaitingMapping { plan }, UploadEvent::Mapped) => plan.staged(memory),
            _ => memory,
        }
    }
}


/// Whether the transfer can be carried out.
fn feasible(
    destination: ResourceDimension,
    intermediate: ResourceDimension,
    intermediate_width: u64,
    intermediate_offset: u64,
    first_subresource: u32,
    num_subresources: usize,
    footprints: &CopyableFootprints,
) -> (r: bool)
    ensures
        r == transfer_feasible(
            destination,
            intermediate,
            intermediate_width,
            intermediate_offset,
            first_subresource,
            num_subresources as int,
            *footprints,
        ),
{
    if num_subresources < 1 || footprints.layouts.len() != num_subresources {
        return false;
    }
    let end_index: u128 = first_subresource as u128 + num_subresources as u128;
    if end_index > u32::MAX as u128 + 1 {
        return false;
    }
    if intermediate != ResourceDimension::Buffer {
        return false;
    }
    let total: u128 = footprints.total_bytes as u128;
    let width: u128 = intermediate_width as u128;
    if total + footprints.layouts[0].placed.offset as u128 > width {
        return false;
    }
    if total + intermediate_offset as u128 > width {
        return false;
    }
    if footprints.total_bytes > usize::MAX as u64 {
        return false;
    }
    !(destination == ResourceDimension::Buffer) || (first_subresource == 0 && num_subresources
        == 1)
}

/// The commands that move the staged subresources of a plan to the
/// destination.
fn record_commands(plan: &UploadPlan<'_>) -> (commands: Vec<CopyCommand>)
    requires
        plan.wf(),
    ensures
        commands@ == plan.commands(),
{
    let layouts = &plan.footprints.layouts;
    let mut commands: Vec<CopyCommand> = Vec::new();
    if plan.destination == ResourceDimension::Buffer {
        commands.push(
            CopyCommand::BufferRegion {
                dst_offset: 0,
                src_offset: layouts[0].placed.offset,
                num_bytes: layouts[0].placed.footprint.width as u64,
            },
        );
        assert(commands@ =~= plan.commands());
    } else {
        let mut i: usize = 0;
        while i < layouts.len()
            invariant
                plan.wf(),
                plan.destination != ResourceDimension::Buffer,
                layouts@ == plan.footprints.layouts@,
                i <= layouts@.len(),
                commands@.len() == i,
                forall|j: int| 0 <= j < i ==> commands@[j] == plan.commands()[j],
            decreases layouts@.len() - i,
        {
            let dst = cd3dx12_texture_copy_location_sub(
                UploadResource::Destination,
                plan.first_subresource + i as u32,
            );
            let src = cd3dx12_texture_copy_location_footprint(
                UploadResource::Intermediate,
                &layouts[i].placed,
            );
            commands.push(CopyCommand::TextureRegion { dst, dst_x: 0, dst_y: 0, dst_z: 0, src });
            i = i + 1;
        }
        assert(commands@ =~= plan.commands());
    }
    commands
}

/// The first `n` payloads, in a vector of their own.
fn payloads_of<'a>(src_data: &[SubresourceData<'a>], n: usize) -> (payloads: Vec<
    SubresourceData<'a>,
>)
    requires
        n <= src_data@.len(),
    ensures
        payloads@ == src_data@.take(n as int),
{
    let mut payloads: Vec<SubresourceData<'a>> = Vec::new();
    let mut i: usize = 0;
    while i < n
        invariant
            i <= n <= src_data@.len(),
            payloads@ == src_data@.take(i as int),
        decreases n - i,
    {
        payloads.push(src_data[i]);
        i = i + 1;
        assert(payloads@ =~= src_data@.take(i as int));
    }
    payloads
}

/// Begins the upload of `num_subresources` subresources, from
/// `first_subresource` on, whose bytes are the first `num_subresources`
/// entries of `src_data`. The staged bytes are to begin at
/// `intermediate_offset` in the intermediate resource. `max_sub_resources` is
/// the number of layouts that the caller has room for.
///
/// The upload is refused at once where there are fewer payloads, or less room,
/// than subresources. Otherwise the first action asks for the footprints.
pub fn update_subresources<'a>(
    intermediate_offset: u64,
    first_subresource: u32,
    num_subresources: u32,
    src_data: &[SubresourceData<'a>],
    max_sub_resources: usize,
) -> (begun: (UploadState<'a>, UploadAction))
    ensures
        begun.0.wf(),
        num_subresources <= max_sub_resources && num_subresources <= src_data@.len() ==> {
            &&& begun.0 matches UploadState::AwaitingFootprints {
                intermediate_offset: offset,
                first_subresource: first,
                payloads,
            }
            &&& offset == intermediate_offset
            &&& first == first_subresource
            &&& payloads@ == src_data@.take(num_subresources as int)
            &&& begun.1@ == (UploadActionView::QueryFootprints {
                first_subresource,
                num_subresources,
                base_offset: intermediate_offset,
            })
        },
        !(num_subresources <= max_sub_resources && num_subresources <= src_data@.len()) ==> {
            &&& begun.0 is Finished
            &&& begun.1@ == (UploadActionView::Finish {
                result: Err(UploadError::InfeasibleTransfer),
            })
        },
{
    if num_subresources as usize > max_sub_resources || num_subresources as usize
        > src_data.len() {
        return (
            UploadState::Finished,
            UploadAction::Finish { result: Err(UploadError::InfeasibleTransfer) },
        );
    }
    let payloads = payloads_of(src_data, num_subresources as usize);
    (
        UploadState::AwaitingFootprints { intermediate_offset, first_subresource, payloads },
        UploadAction::QueryFootprints {
            first_subresource,
            num_subresources,
            base_offset: intermediate_offset,
        },
    )
}

/// Begins the upload of `MAX_SUBRESOURCES` subresources, from
/// `first_subresource` on, whose bytes are the entries of `src_data`. The
/// staged bytes are to begin at `intermediate_offset` in the intermediate
/// resource.
///
/// The upload is refused at once where a `u32` cannot count the subresources.
/// Otherwise the first action asks for the footprints.
pub fn update_subresources_stack_alloc<'a, const MAX_SUBRESOURCES: usize>(
    intermediate_offset: u64,
    first_subresource: u32,
    src_data: &[SubresourceData<'a>; MAX_SUBRESOURCES],
) -> (begun: (UploadState<'a>, UploadAction))
    ensures
        begun.0.wf(),
        MAX_SUBRESOURCES <= u32::MAX ==> {
            &&& begun.0 matches UploadState::AwaitingFootprints {
                intermediate_offset: offset,
                first_subresource: first,
                payloads,
            }
            &&& offset == intermediate_offset
            &&& first == first_subresource
            &&& payloads@ == src_data@
            &&& begun.1@ == (UploadActionView::QueryFootprints {
                first_subresource,
                num_subresources: MAX_SUBRESOURCES as u32,
                base_offset: intermediate_offset,
            })
        },
        MAX_SUBRESOURCES > u32::MAX ==> {
            &&& begun.0 is Finished
            &&& begun.1@ == (UploadActionView::Finish {
                result: Err(UploadError::InfeasibleTransfer),
            })
        },
{
    if MAX_SUBRESOURCES > u32::MAX as usize {
        return (
            UploadState::Finished,
            UploadAction::Finish { result: Err(UploadError::InfeasibleTransfer) },
        );
    }
    let slice = src_data.as_slice();
    let payloads = payloads_of(slice, MAX_SUBRESOURCES);
    assert(payloads@ =~= src_data@);
    (
        UploadState::AwaitingFootprints { intermediate_offset, first_subresource, payloads },
        UploadAction::QueryFootprints {
            first_subresource,
            num_subresources: MAX_SUBRESOURCES as u32,
            base_offset: intermediate_offset,
        },
    )
}

impl<'a> UploadState<'a> {
    /// Takes the upload one step on: `event` tells what came of the last
    /// action, and the result is the state that follows and the action to
    /// perform next. `memory` is the mapped memory of the intermediate
    /// resource when the event is `Mapped`, and is left alone otherwise.
    ///
    /// An event that the state does not await changes nothing and is answered
    /// with `None`.
    pub fn advance(self, event: UploadEvent, memory: &mut [u8]) -> (next: (
        UploadState<'a>,
        Option<UploadAction>,
    ))
        ensures
            next.0 == self.next(event, old(memory)@.len() as int).0,
            action_view(next.1) == self.next(event, old(memory)@.len() as int).1,
            final(memory)@ == self.memory_after(event, old(memory)@),
            self.wf() ==> next.0.wf(),
    {
        match self {
            UploadState::AwaitingFootprints { intermediate_offset, first_subresource, payloads } => {
                match event {
                    UploadEvent::FootprintsReady {
                        destination,
                        intermediate,
                        intermediate_width,
                        footprints,
                    } => {
                        if feasible(
                            destination,
                            intermediate,
                            intermediate_width,
                            intermediate_offset,
                            first_subresource,
                            payloads.len(),
                            &footprints,
                        ) {
                            (
                                UploadState::AwaitingMapping {
                                    plan: UploadPlan {
                                        destination,
                                        first_subresource,
                                        footprints,
                                        payloads,
                                    },
                                },
                                Some(UploadAction::MapIntermediate),
                            )
                        } else {
                            (
                                UploadState::Finished,
                                Some(
                                    UploadAction::Finish {
                                        result: Err(UploadError::InfeasibleTransfer),
                                    },
                                ),
                            )
                        }
                    },
                    UploadEvent::Failed { code } => (
                        UploadState::Finished,
                        Some(
                            UploadAction::Finish {
                                result: Err(UploadError::ExternalApiFailure { code }),
                            },
                        ),
                    ),
                    _ => (
                        UploadState::AwaitingFootprints {
                            intermediate_offset,
                            first_subresource,
                            payloads,
                        },
                        None,
                    ),
                }
            },
            UploadState::AwaitingMapping { plan } => {
                match event {
                    UploadEvent::Mapped => {
                        let filled = stage_subresources(
                            memory,
                            &plan.footprints.layouts,
                            &plan.payloads,
                        );
                        (
                            UploadState::AwaitingUnmapping { plan, filled },
                            Some(UploadAction::UnmapIntermediate),
                        )
                    },
                    UploadEvent::Failed { code } => (
                        UploadState::Finished,
                        Some(
                            UploadAction::Finish {
                                result: Err(UploadError::ExternalApiFailure { code }),
                            },
                        ),
                    ),
                    _ => (UploadState::AwaitingMapping { plan }, None),
                }
            },
            UploadState::AwaitingUnmapping { plan, filled } => {
                match event {
                    UploadEvent::Unmapped => {
                        if filled && plan.is_well_formed() {
                            let commands = record_commands(&plan);
                            (
                                UploadState::AwaitingRecording {
                                    total_bytes: plan.footprints.total_bytes,
                                },
                                Some(UploadAction::Record { commands }),
                            )
                        } else {
                            (
                                UploadState::Finished,
                                Some(
                                    UploadAction::Finish {
                                        result: Err(UploadError::InfeasibleTransfer),
                                    },
                                ),
                            )
                        }
                    },
                    _ => (UploadState::AwaitingUnmapping { plan, filled }, None),
                }
            },
            UploadState::AwaitingRecording { total_bytes } => {
                match event {
                    UploadEvent::Recorded => (
                        UploadState::Finished,
                        Some(UploadAction::Finish { result: Ok(total_bytes) }),
                    ),
                    _ => (UploadState::AwaitingRecording { total_bytes }, None),
                }
            },
            UploadState::Finished => (UploadState::Finished, None),
        }
    }
}

} // verus!
