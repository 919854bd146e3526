//! What holds of every upload, whatever the caller and the device do.

use vstd::prelude::*;
use crate::commands::{buffer_region_copied, CopyCommand, TextureCopyLocation, UploadResource};
use crate::footprint::{CopyableFootprints, ResourceDimension, SubresourceLayout};
use crate::memcpy::{lemma_copied_bytes, rows_copied, slices_copied, SubresourceData};
use crate::staging::{copyable_at, first_blocked, lemma_first_blocked, staged};
use crate::upload::{
    copy_commands, transfer_feasible, UploadActionView, UploadError, UploadEvent, UploadPlan,
    UploadState,
};

verus! {

/// One step of a run: the event that arrives, and the number of bytes of the
/// memory that is handed to the machine with it.
pub struct UploadInput {
    pub event: UploadEvent,
    pub memory_len: int,
}

/// What has happened in a run, counted.
pub struct UploadTally {
    /// How often the machine asked for the intermediate resource to be mapped.
    pub maps_asked: nat,
    /// How often the machine was told, while it awaited it, that the resource
    /// is mapped.
    pub mapped: nat,
    /// How often the machine asked for the resource to be unmapped.
    pub unmaps_asked: nat,
    /// How often the machine was told, while it awaited it, that the resource
    /// is unmapped.
    pub unmapped: nat,
    /// How often the machine asked for copy commands to be recorded.
    pub records_asked: nat,
}

/// 1 where `b` holds, else 0.
pub open spec fn one_if(b: bool) -> nat {
    if b {
        1
    } else {
        0
    }
}

impl<'a> UploadState<'a> {
    /// The state that a run of inputs leaves, begun in this state.
    pub open spec fn after(self, inputs: Seq<UploadInput>) -> UploadState<'a>
        decreases inputs.len(),
    {
        if inputs.len() == 0 {
            self
        } else {
            self.after(inputs.drop_last()).next(inputs.last().event, inputs.last().memory_len).0
        }
    }

    /// The action that answers input `i` of a run begun in this state.
    pub open spec fn action_at(self, inputs: Seq<UploadInput>, i: int) -> Option<
        UploadActionView,
    > {
        self.after(inputs.take(i)).next(inputs[i].event, inputs[i].memory_len).1
    }

    /// The tally of a run of inputs begun in this state.
    pub open spec fn tally(self, inputs: Seq<UploadInput>) -> UploadTally
        decreases inputs.len(),
    {
        if inputs.len() == 0 {
            UploadTally { maps_asked: 0, mapped: 0, unmaps_asked: 0, unmapped: 0, records_asked: 0 }
        } else {
            let earlier = self.tally(inputs.drop_last());
            let state = self.after(inputs.drop_last());
            let event = inputs.last().event;
            let action = state.next(event, inputs.last().memory_len).1;
            UploadTally {
                maps_asked: earlier.maps_asked + one_if(
                    action == Some(UploadActionView::MapIntermediate),
                ),
                mapped: earlier.mapped + one_if(
                    state is AwaitingMapping && event is Mapped,
                ),
                unmaps_asked: earlier.unmaps_asked + one_if(
                    action == Some(UploadActionView::UnmapIntermediate),
                ),
                unmapped: earlier.unmapped + one_if(
                    state is AwaitingUnmapping && event is Unmapped,
                ),
                records_asked: earlier.records_asked + one_if(
                    action is Some && action->0 is Record,
                ),
            }
        }
    }

    /// What the tally of a run is when the run has led to this state.
    pub open spec fn accounts_for(self, tally: UploadTally) -> bool {
        match self {
            UploadState::AwaitingFootprints { .. } => {
                &&& tally.maps_asked == 0
                &&& tally.mapped == 0
                &&& tally.unmaps_asked == 0
                &&& tally.unmapped == 0
                &&& tally.records_asked == 0
            },
            UploadState::AwaitingMapping { .. } => {
                &&& tally.maps_asked == 1
                &&& tally.mapped == 0
                &&& tally.unmaps_asked == 0
                &&& tally.unmapped == 0
                &&& tally.records_asked == 0
            },
            UploadState::AwaitingUnmapping { .. } => {
                &&& tally.maps_asked == 1
                &&& tally.mapped == 1
                &&& tally.unmaps_asked == 1
                &&& tally.unmapped == 0
                &&& tally.records_asked == 0
            },
            UploadState::AwaitingRecording { .. } => {
                &&& tally.maps_asked == 1
                &&& tally.mapped == 1
                &&& tally.unmaps_asked == 1
                &&& tally.unmapped == 1
                &&& tally.records_asked == 1
            },
            UploadState::Finished => {
                &&& tally.maps_asked <= 1
                &&& tally.mapped <= tally.maps_asked
                &&& tally.unmaps_asked == tally.mapped
                &&& tally.unmapped == tally.mapped
                &&& tally.records_asked <= tally.unmapped
            },
        }
    }
}

/// An upload that is over stays over: whatever arrives, the state is
/// `Finished` and no action is asked for.
pub proof fn lemma_finished_is_final(inputs: Seq<UploadInput>)
    ensures
        UploadState::Finished.after(inputs) is Finished,
        forall|i: int|
            0 <= i < inputs.len() ==> #[trigger] UploadState::Finished.action_at(inputs, i)
                is None,
    decreases inputs.len(),
{
    if inputs.len() > 0 {
        lemma_finished_is_final(inputs.drop_last());
        assert forall|i: int| 0 <= i < inputs.len() implies #[trigger] UploadState::Finished.action_at(
            inputs,
            i,
        ) is None by {
            lemma_finished_is_final(inputs.take(i));
        }
    }
}

/// A transfer that is not feasible ends when the footprints arrive: the
/// machine answers with the failure `InfeasibleTransfer`, and whatever arrives
/// after that, it asks for nothing more. So the intermediate resource is
/// never mapped and no command is recorded.
pub proof fn lemma_infeasible_transfer_does_nothing(
    state: UploadState<'_>,
    destination: ResourceDimension,
    intermediate: ResourceDimension,
    intermediate_width: u64,
    footprints: CopyableFootprints,
    memory_len: int,
    rest: Seq<UploadInput>,
)
    requires
        state matches UploadState::AwaitingFootprints {
            intermediate_offset,
            first_subresource,
            payloads,
        } && !transfer_feasible(
            destination,
            intermediate,
            intermediate_width,
            intermediate_offset,
            first_subresource,
            payloads@.len() as int,
            footprints,
        ),
    ensures
        ({
            let answer = state.next(
                UploadEvent::FootprintsReady {
                    destination,
                    intermediate,
                    intermediate_width,
                    footprints,
                },
                memory_len,
            );
            &&& answer.1 == Some(
                UploadActionView::Finish { result: Err(UploadError::InfeasibleTransfer) },
            )
            &&& forall|i: int|
                0 <= i < rest.len() ==> #[trigger] answer.0.action_at(rest, i) is None
        }),
{
    lemma_finished_is_final(rest);
}

/// Into a buffer goes one subresource only, the one of index 0. An upload to
/// a buffer of another number of subresources, or from another index, ends
/// with the failure `InfeasibleTransfer` when the footprints arrive, and
/// asks for nothing after that: no command is ever recorded.
pub proof fn lemma_buffer_takes_one_subresource(
    state: UploadState<'_>,
    intermediate: ResourceDimension,
    intermediate_width: u64,
    footprints: CopyableFootprints,
    memory_len: int,
    rest: Seq<UploadInput>,
)
    requires
        state matches UploadState::AwaitingFootprints { first_subresource, payloads, .. } && (
        first_subresource != 0 || payloads@.len() != 1),
    ensures
        ({
            let answer = state.next(
                UploadEvent::FootprintsReady {
                    destination: ResourceDimension::Buffer,
                    intermediate,
                    intermediate_width,
                    footprints,
                },
                memory_len,
            );
            &&& answer.1 == Some(
                UploadActionView::Finish { result: Err(UploadError::InfeasibleTransfer) },
            )
            &&& forall|i: int|
                0 <= i < rest.len() ==> #[trigger] answer.0.action_at(rest, i) is None
        }),
{
    lemma_infeasible_transfer_does_nothing(
        state,
        ResourceDimension::Buffer,
        intermediate,
        intermediate_width,
        footprints,
        memory_len,
        rest,
    );
}

/// Where the intermediate resource, counted from the offset that was asked
/// for, holds fewer bytes than the transfer needs, the upload ends with the
/// failure `InfeasibleTransfer` when the footprints arrive, and asks for
/// nothing after that: the resource is never mapped and no command is
/// recorded.
pub proof fn lemma_small_intermediate_is_refused(
    state: UploadState<'_>,
    destination: ResourceDimension,
    intermediate: ResourceDimension,
    intermediate_width: u64,
    footprints: CopyableFootprints,
    memory_len: int,
    rest: Seq<UploadInput>,
)
    requires
        state matches UploadState::AwaitingFootprints { intermediate_offset, .. }
            && intermediate_width - intermediate_offset < footprints.total_bytes,
    ensures
        ({
            let answer = state.next(
                UploadEvent::FootprintsReady {
                    destination,
                    intermediate,
                    intermediate_width,
                    footprints,
                },
                memory_len,
            );
            &&& answer.1 == Some(
                UploadActionView::Finish { result: Err(UploadError::InfeasibleTransfer) },
            )
            &&& forall|i: int|
                0 <= i < rest.len() ==> #[trigger] answer.0.action_at(rest, i) is None
        }),
{
    lemma_infeasible_transfer_does_nothing(
        state,
        destination,
        intermediate,
        intermediate_width,
        footprints,
        memory_len,
        rest,
    );
}

/// In every run of an upload from its beginning, whatever arrives and in
/// whatever order: the machine asks for the intermediate resource to be
/// mapped at most once; each time it is told that the resource is mapped it
/// asks, in its answer, for it to be unmapped, whether the copy went through
/// or broke off, and it asks for that at no other time; and it neither asks
/// for commands to be recorded nor ends the upload before it is told that the
/// resource is unmapped.
pub proof fn lemma_map_unmap_balance(state: UploadState<'_>, inputs: Seq<UploadInput>)
    requires
        state is AwaitingFootprints || state is Finished,
    ensures
        state.after(inputs).accounts_for(state.tally(inputs)),
        state.tally(inputs).unmaps_asked == state.tally(inputs).mapped,
        state.tally(inputs).mapped <= state.tally(inputs).maps_asked <= 1,
        state.tally(inputs).records_asked <= state.tally(inputs).unmapped
            <= state.tally(inputs).mapped,
        state.after(inputs) is Finished ==> state.tally(inputs).unmapped == state.tally(
            inputs,
        ).mapped,
    decreases inputs.len(),
{
    if inputs.len() > 0 {
        lemma_map_unmap_balance(state, inputs.drop_last());
    }
}

/// When the intermediate resource is unmapped after a copy that went through
/// and the destination is a texture, the machine asks for one command for
/// each subresource, in order: command `i` copies to the subresource of index
/// `first_subresource + i` of the destination, from the footprint that the
/// device placed for subresource `i` in the intermediate resource. None of
/// these indices leaves `u32`.
pub proof fn lemma_texture_commands(plan: UploadPlan<'_>, memory_len: int)
    requires
        plan.wf(),
        plan.destination != ResourceDimension::Buffer,
    ensures
        (UploadState::AwaitingUnmapping { plan, filled: true }).next(
            UploadEvent::Unmapped,
            memory_len,
        ).1 == Some(UploadActionView::Record { commands: plan.commands() }),
        plan.commands().len() == plan.payloads@.len(),
        forall|i: int|
            0 <= i < plan.payloads@.len() ==> #[trigger] plan.commands()[i] == (
            CopyCommand::TextureRegion {
                dst: TextureCopyLocation::SubresourceIndex {
                    resource: UploadResource::Destination,
                    index: (plan.first_subresource + i) as u32,
                },
                dst_x: 0,
                dst_y: 0,
                dst_z: 0,
                src: TextureCopyLocation::PlacedFootprint {
                    resource: UploadResource::Intermediate,
                    footprint: plan.footprints.layouts@[i].placed,
                },
            }),
        plan.first_subresource + plan.payloads@.len() - 1 <= u32::MAX,
{
}

/// The bytes of a payload come back from a buffer that they were uploaded to.
///
/// The device lays a buffer out as one row that is as long as the buffer is
/// wide. Where the payload holds that many bytes and the staging memory has
/// room for them at the offset of the layout, the machine copies them there
/// and asks for one region copy. Once a device has carried that copy out, the
/// destination begins with the bytes of the payload, whatever pitches the
/// payload names.
pub proof fn lemma_buffer_round_trip(
    plan: UploadPlan<'_>,
    staging: Seq<u8>,
    destination: Seq<u8>,
)
    requires
        plan.wf(),
        plan.destination == ResourceDimension::Buffer,
        plan.footprints.layouts@[0].num_rows == 1,
        plan.footprints.layouts@[0].placed.footprint.depth == 1,
        plan.footprints.layouts@[0].row_size_in_bytes
            == plan.footprints.layouts@[0].placed.footprint.width,
        plan.fills(staging.len() as int),
        plan.footprints.layouts@[0].placed.footprint.width <= destination.len(),
    ensures
        plan.commands() == seq![
            CopyCommand::BufferRegion {
                dst_offset: 0,
                src_offset: plan.footprints.layouts@[0].placed.offset,
                num_bytes: plan.footprints.layouts@[0].placed.footprint.width as u64,
            },
        ],
        buffer_region_copied(
            destination,
            0,
            plan.staged(staging),
            plan.footprints.layouts@[0].placed.offset as int,
            plan.footprints.layouts@[0].placed.footprint.width as int,
        ).subrange(0, plan.footprints.layouts@[0].placed.footprint.width as int)
            == plan.payloads@[0].data@.subrange(
            0,
            plan.footprints.layouts@[0].placed.footprint.width as int,
        ),
{
    let layouts = plan.footprints.layouts@;
    let payloads = plan.payloads@;
    let layout = layouts[0];
    let payload = payloads[0];
    let n = layout.placed.footprint.width as int;
    let len = staging.len() as int;
    lemma_first_blocked(layouts, payloads, len, 0);
    assert(first_blocked(layouts, payloads, len) == 1);
    assert(copyable_at(layouts, payloads, len, 0));
    let dest = layout.dest();
    let after = plan.staged(staging);
    assert(staged(staging, layouts, payloads, 0) == staging);
    assert(after == layout.copied(staging, payload));
    assert(slices_copied(staging, dest, payload, n, 1, 0) == staging);
    assert(rows_copied(staging, dest, payload, n, 0, 0) == staging);
    assert(after == rows_copied(staging, dest, payload, n, 0, 1));
    assert(dest.index(0, 0, 0) == layout.placed.offset);
    assert(payload.index(0, 0, 0) == 0);
    if n > 0 {
        assert(dest.index(0, 0, n - 1) < len);
        assert(payload.index(0, 0, n - 1) < payload.data@.len());
    }
    assert(buffer_region_copied(destination, 0, after, layout.placed.offset as int, n).subrange(
        0,
        n,
    ) =~= payload.data@.subrange(0, n));
}


/// Every state of a run that began in a well-formed state is well formed.
pub proof fn lemma_run_stays_well_formed(state: UploadState<'_>, inputs: Seq<UploadInput>)
    requires
        state.wf(),
    ensures
        state.after(inputs).wf(),
    decreases inputs.len(),
{
    if inputs.len() > 0 {
        lemma_run_stays_well_formed(state, inputs.drop_last());
    }
}

/// The run of an upload that meets no obstacle.
///
/// Where the transfer is feasible and every subresource can be copied into
/// the mapped memory, and each action is answered by the event that reports
/// it done, the machine asks in turn for the intermediate resource to be
/// mapped, for it to be unmapped, for the copy commands to be recorded, and
/// ends the upload with the number of bytes that the device reported for the
/// transfer.
pub proof fn lemma_feasible_upload_succeeds(
    state: UploadState<'_>,
    destination: ResourceDimension,
    intermediate: ResourceDimension,
    intermediate_width: u64,
    footprints: CopyableFootprints,
    memory_len: int,
)
    requires
        state matches UploadState::AwaitingFootprints {
            intermediate_offset,
            first_subresource,
            payloads,
        } && transfer_feasible(
            destination,
            intermediate,
            intermediate_width,
            intermediate_offset,
            first_subresource,
            payloads@.len() as int,
            footprints,
        ) && first_blocked(footprints.layouts@, payloads@, memory_len)
            == footprints.layouts@.len(),
    ensures
        ({
            let inputs = seq![
                UploadInput {
                    event: UploadEvent::FootprintsReady {
                        destination,
                        intermediate,
                        intermediate_width,
                        footprints,
                    },
                    memory_len: 0,
                },
                UploadInput { event: UploadEvent::Mapped, memory_len },
                UploadInput { event: UploadEvent::Unmapped, memory_len: 0 },
                UploadInput { event: UploadEvent::Recorded, memory_len: 0 },
            ];
            &&& state.action_at(inputs, 0) == Some(UploadActionView::MapIntermediate)
            &&& state.action_at(inputs, 1) == Some(UploadActionView::UnmapIntermediate)
            &&& state.action_at(inputs, 2) == Some(
                UploadActionView::Record {
                    commands: copy_commands(
                        destination,
                        state->first_subresource,
                        footprints.layouts@,
                    ),
                },
            )
            &&& state.action_at(inputs, 3) == Some(
                UploadActionView::Finish { result: Ok(footprints.total_bytes) },
            )
            &&& state.after(inputs) is Finished
        }),
{
    let inputs = seq![
        UploadInput {
            event: UploadEvent::FootprintsReady {
                destination,
                intermediate,
                intermediate_width,
                footprints,
            },
            memory_len: 0,
        },
        UploadInput { event: UploadEvent::Mapped, memory_len },
        UploadInput { event: UploadEvent::Unmapped, memory_len: 0 },
        UploadInput { event: UploadEvent::Recorded, memory_len: 0 },
    ];
    let s0 = state;
    let s1 = s0.next(inputs[0].event, inputs[0].memory_len).0;
    let s2 = s1.next(inputs[1].event, inputs[1].memory_len).0;
    let s3 = s2.next(inputs[2].event, inputs[2].memory_len).0;
    let s4 = s3.next(inputs[3].event, inputs[3].memory_len).0;
    assert(inputs.take(0).len() == 0);
    assert(state.after(inputs.take(0)) == s0);
    assert(inputs.take(1).drop_last() =~= inputs.take(0));
    assert(inputs.take(1).last() == inputs[0]);
    assert(state.after(inputs.take(1)) == s1);
    assert(inputs.take(2).drop_last() =~= inputs.take(1));
    assert(inputs.take(2).last() == inputs[1]);
    assert(state.after(inputs.take(2)) == s2);
    assert(inputs.take(3).drop_last() =~= inputs.take(2));
    assert(inputs.take(3).last() == inputs[2]);
    assert(state.after(inputs.take(3)) == s3);
    assert(inputs.drop_last() =~= inputs.take(3));
    assert(state.after(inputs) == s4);
}


/// The rows of a staged subresource stand at the pitch that the device gave.
///
/// Where the rows of a layout are no longer than its row pitch, staging puts
/// byte `k` of row `y` of slice `z` at the offset of the layout plus `z`
/// slices of `num_rows` rows plus `y` rows, each row as long as the row pitch
/// of the device, plus `k`. It takes the byte from row `y` of slice `z` of the
/// payload at the pitches that the payload names. Every byte of memory outside
/// these rows is as it was: what the payload holds between two rows is not
/// copied.
pub proof fn lemma_staged_rows_stand_at_device_pitch(
    layout: SubresourceLayout,
    memory: Seq<u8>,
    src: SubresourceData<'_>,
)
    requires
        layout.addressable(),
        layout.row_size_in_bytes <= layout.placed.footprint.row_pitch,
    ensures
        layout.copied(memory, src).len() == memory.len(),
        forall|z: int, y: int, k: int|
            #![trigger layout.dest().index(z, y, k)]
            0 <= z < layout.placed.footprint.depth && 0 <= y < layout.num_rows && 0 <= k
                < layout.row_size_in_bytes && layout.dest().index(z, y, k) < memory.len() ==> {
                &&& layout.dest().index(z, y, k) == layout.placed.offset + z * (
                layout.placed.footprint.row_pitch * layout.num_rows) + y
                    * layout.placed.footprint.row_pitch + k
                &&& layout.copied(memory, src)[layout.dest().index(z, y, k)] == src.data@[z
                    * src.slice_pitch + y * src.row_pitch + k]
            },
        forall|i: int|
            0 <= i < memory.len() && !layout.dest().touches(
                layout.row_size_in_bytes as int,
                layout.num_rows as int,
                layout.placed.footprint.depth as int,
                i,
            ) ==> #[trigger] layout.copied(memory, src)[i] == memory[i],
{
    let dest = layout.dest();
    let row_pitch = layout.placed.footprint.row_pitch as int;
    let num_rows = layout.num_rows as int;
    assert((num_rows - 1) * row_pitch + row_pitch == row_pitch * num_rows) by (nonlinear_arith);
    assert(dest.rows_apart(
        layout.row_size_in_bytes as int,
        num_rows,
        layout.placed.footprint.depth as int,
    ));
    lemma_copied_bytes(
        memory,
        dest,
        src,
        layout.row_size_in_bytes as int,
        num_rows,
        layout.placed.footprint.depth as int,
    );
}

} // verus!
