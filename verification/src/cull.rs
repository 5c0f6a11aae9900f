//! The culling dispatch: one workgroup per draw command.
//!
//! The compute pass reads each object's bounds and the draw metadata and
//! rewrites the indirect-command buffer in place, zeroing the instance
//! count of culled commands; everything else in a command stays. The
//! dispatch is fenced and host-waited before the graphics submission, so
//! culling is strictly sequenced before drawing. The frustum verdict
//! itself is the compute shader's; here its effect on the command stream
//! is applied for any verdict.

use vstd::prelude::*;

use crate::draw::DrawCommand;

verus! {

/// Workgroup counts of a compute dispatch.
#[derive(Clone, Copy, Debug, PartialEq, Eq, Structural)]
pub struct DispatchDimensions {
    /// Workgroups along x.
    pub x: u32,
    /// Workgroups along y.
    pub y: u32,
    /// Workgroups along z.
    pub z: u32,
}

/// The culled form of a command: the same draw with no instances.
pub open spec fn culled(c: DrawCommand) -> DrawCommand {
    DrawCommand { instance_count: 0, ..c }
}

/// Dimensions of the culling dispatch: one workgroup per draw command.
pub fn dispatch_dimensions(command_count: u32) -> (d: DispatchDimensions)
    ensures
        d == (DispatchDimensions { x: command_count, y: 1, z: 1 }),
{
    DispatchDimensions { x: command_count, y: 1, z: 1 }
}

/// Rewrite the command stream under a visibility verdict, as the compute
/// pass does in place: a culled command keeps every field but its
/// instance count, which drops to zero; a visible command is untouched.
pub fn apply_culling(commands: &mut Vec<DrawCommand>, visible: &Vec<bool>)
    requires
        visible@.len() == old(commands)@.len(),
    ensures
        final(commands)@.len() == old(commands)@.len(),
        forall|i: int|
            0 <= i < old(commands)@.len() ==> final(commands)@[i] == (if visible@[i] {
                old(commands)@[i]
            } else {
                culled(old(commands)@[i])
            }),
{
    let n = commands.len();
    let mut i: usize = 0;
    while i < n
        invariant
            n == old(commands)@.len(),
            visible@.len() == n,
            commands@.len() == n,
            i <= n,
            forall|j: int|
                i <= j < n ==> commands@[j] == old(commands)@[j],
            forall|j: int|
                0 <= j < i ==> commands@[j] == (if visible@[j] {
                    old(commands)@[j]
                } else {
                    culled(old(commands)@[j])
                }),
        decreases n - i,
    {
        if !visible[i] {
            let c = commands[i];
            commands.set(
                i,
                DrawCommand {
                    index_count: c.index_count,
                    instance_count: 0,
                    first_index: c.first_index,
                    base_vertex: c.base_vertex,
                    first_instance: c.first_instance,
                },
            );
        }
        i = i + 1;
    }
}

/// Instances the indirect draw would issue over the whole stream.
pub open spec fn total_instances(commands: Seq<DrawCommand>) -> int
    decreases commands.len(),
{
    if commands.len() == 0 {
        0
    } else {
        total_instances(commands.drop_last()) + commands.last().instance_count
    }
}

/// A stream whose every command has instance count zero draws nothing:
/// the indirect draw issues zero instances in total.
pub proof fn lemma_fully_culled_draws_nothing(commands: Seq<DrawCommand>)
    requires
        forall|i: int| 0 <= i < commands.len() ==> commands[i].instance_count == 0,
    ensures
        total_instances(commands) == 0,
    decreases commands.len(),
{
    if commands.len() > 0 {
        lemma_fully_culled_draws_nothing(commands.drop_last());
    }
}

} // verus!
