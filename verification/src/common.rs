use vstd::prelude::*;

verus! {

/// Enum that controls how to clean task components.
/// `RemoveComponent` means task component will be removed from its entity;
/// `Despawn` means the whole entity will be despawned.
#[derive(Clone, Copy, Debug, PartialEq, Eq, Structural)]
pub enum TaskCleaningStrategy {
    RemoveComponent,
    Despawn,
}

} // verus!
