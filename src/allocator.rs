use vstd::prelude::*;
use crate::status::StatusErrorKind;

verus! {

/// Alignment of every block the bridging allocator hands out, and the size of
/// the hidden header that records the requested size in front of each block.
pub const ALIGNMENT: usize = 16;

/// The largest size the bridging allocator accepts: the platform's largest
/// signed addressable size.
pub const MAX_REQUEST: usize = usize::MAX / 2;

/// A command of the native allocator control protocol.
#[derive(PartialEq, Eq, Structural, Clone, Copy, Debug)]
pub enum AllocatorCommand {
    Malloc,
    Calloc,
    Realloc,
    Free,
    Unsupported,
}

/// The command that a raw native command value denotes.
pub open spec fn command_of(raw: u32) -> AllocatorCommand {
    if raw == 0 {
        AllocatorCommand::Malloc
    } else if raw == 1 {
        AllocatorCommand::Calloc
    } else if raw == 2 {
        AllocatorCommand::Realloc
    } else if raw == 3 {
        AllocatorCommand::Free
    } else {
        AllocatorCommand::Unsupported
    }
}

impl AllocatorCommand {
    /// Decodes a raw native command value; unknown values are `Unsupported`.
    pub fn from_raw(raw: u32) -> (r: AllocatorCommand)
        ensures
            r == command_of(raw),
    {
        match raw {
            0 => AllocatorCommand::Malloc,
            1 => AllocatorCommand::Calloc,
            2 => AllocatorCommand::Realloc,
            3 => AllocatorCommand::Free,
            _ => AllocatorCommand::Unsupported,
        }
    }
}

/// What the host must do to carry out one control command. Block sizes count
/// the hidden header; `recorded_size` is what the header must hold afterwards.
#[derive(PartialEq, Eq, Structural, Clone, Copy, Debug)]
pub enum AllocatorAction {
    /// Allocate a fresh block, zero-filled when `zeroed`, and record the size.
    Allocate { block_size: usize, zeroed: bool, recorded_size: usize },
    /// Resize the existing block and record the new size.
    Reallocate { old_block_size: usize, new_block_size: usize, recorded_size: usize },
    /// Deallocate the existing block.
    Release { block_size: usize },
    /// Succeed without touching memory.
    Nothing,
    /// Report a failure status of this kind.
    Fail { kind: StatusErrorKind },
}

/// A fresh allocation of `size` requested bytes.
pub open spec fn allocation(size: usize, zeroed: bool) -> AllocatorAction {
    if size > MAX_REQUEST {
        AllocatorAction::Fail { kind: StatusErrorKind::OutOfRange }
    } else {
        AllocatorAction::Allocate {
            block_size: (size + ALIGNMENT) as usize,
            zeroed,
            recorded_size: size,
        }
    }
}

/// How the bridging allocator answers `command` with the requested byte
/// length `size`. `recorded` is the size held in the header of the block the
/// command refers to, or `None` when the command carries a null pointer.
pub open spec fn bridge_outcome(
    command: AllocatorCommand,
    size: usize,
    recorded: Option<usize>,
) -> AllocatorAction {
    match command {
        AllocatorCommand::Malloc => allocation(size, false),
        AllocatorCommand::Calloc => allocation(size, true),
        AllocatorCommand::Realloc => match recorded {
            None => allocation(size, false),
            Some(old) => if size > MAX_REQUEST {
                AllocatorAction::Fail { kind: StatusErrorKind::OutOfRange }
            } else {
                AllocatorAction::Reallocate {
                    old_block_size: (old + ALIGNMENT) as usize,
                    new_block_size: (size + ALIGNMENT) as usize,
                    recorded_size: size,
                }
            },
        },
        AllocatorCommand::Free => match recorded {
            None => AllocatorAction::Nothing,
            Some(old) => AllocatorAction::Release { block_size: (old + ALIGNMENT) as usize },
        },
        AllocatorCommand::Unsupported => AllocatorAction::Fail {
            kind: StatusErrorKind::Unimplemented,
        },
    }
}

/// A header value this allocator can have written: never above `MAX_REQUEST`.
pub open spec fn valid_recorded(recorded: Option<usize>) -> bool {
    match recorded {
        Some(old) => old <= MAX_REQUEST,
        None => true,
    }
}

fn allocate(size: usize, zeroed: bool) -> (r: AllocatorAction)
    ensures
        r == allocation(size, zeroed),
{
    if size > MAX_REQUEST {
        AllocatorAction::Fail { kind: StatusErrorKind::OutOfRange }
    } else {
        AllocatorAction::Allocate { block_size: size + ALIGNMENT, zeroed, recorded_size: size }
    }
}

/// Which of the two allocator variants a handle is.
#[derive(PartialEq, Eq, Structural, Clone, Copy, Debug)]
pub enum AllocatorVariant {
    /// Redirects every command to the host allocator.
    Bridging,
    /// Allocates nothing; used where the native library wants an allocator
    /// but the memory is owned by the caller.
    Null,
}

/// An allocator handle handed to the native library. It carries no mutable
/// state, so any number of resources may hold a copy.
#[derive(PartialEq, Eq, Structural, Clone, Copy, Debug)]
pub struct Allocator {
    pub variant: AllocatorVariant,
}

impl Allocator {
    /// The process-wide allocator that bridges to the host allocator.
    pub fn get_global() -> (r: Allocator)
        ensures
            r.variant == AllocatorVariant::Bridging,
    {
        Allocator { variant: AllocatorVariant::Bridging }
    }

    /// The allocator that performs no allocation.
    pub fn null_allocator() -> (r: Allocator)
        ensures
            r.variant == AllocatorVariant::Null,
    {
        Allocator { variant: AllocatorVariant::Null }
    }

    /// The action this allocator takes for one control command.
    pub open spec fn outcome(
        &self,
        command: AllocatorCommand,
        size: usize,
        recorded: Option<usize>,
    ) -> AllocatorAction {
        match self.variant {
            AllocatorVariant::Bridging => bridge_outcome(command, size, recorded),
            AllocatorVariant::Null => AllocatorAction::Nothing,
        }
    }

    /// Decides how to carry out one control command. `size` is the byte
    /// length the command carries and `recorded` the header of the block it
    /// refers to (`None` for a null pointer).
    pub fn control(
        &self,
        command: AllocatorCommand,
        size: usize,
        recorded: Option<usize>,
    ) -> (r: AllocatorAction)
        requires
            valid_recorded(recorded),
        ensures
            r == self.outcome(command, size, recorded),
    {
        match self.variant {
            AllocatorVariant::Null => AllocatorAction::Nothing,
            AllocatorVariant::Bridging => match command {
                AllocatorCommand::Malloc => allocate(size, false),
                AllocatorCommand::Calloc => allocate(size, true),
                AllocatorCommand::Realloc => match recorded {
                    None => allocate(size, false),
                    Some(old) => {
                        if size > MAX_REQUEST {
                            AllocatorAction::Fail { kind: StatusErrorKind::OutOfRange }
                        } else {
                            AllocatorAction::Reallocate {
                                old_block_size: old + ALIGNMENT,
                                new_block_size: size + ALIGNMENT,
                                recorded_size: size,
                            }
                        }
                    },
                },
                AllocatorCommand::Free => match recorded {
                    None => AllocatorAction::Nothing,
                    Some(old) => AllocatorAction::Release { block_size: old + ALIGNMENT },
                },
                AllocatorCommand::Unsupported => AllocatorAction::Fail {
                    kind: StatusErrorKind::Unimplemented,
                },
            },
        }
    }
}

/// The address handed to the native library for a block starting at `block`.
pub fn user_address(block: usize) -> (r: usize)
    requires
        block + ALIGNMENT <= usize::MAX,
    ensures
        r == block + ALIGNMENT,
{
    block + ALIGNMENT
}

/// The start of the block behind an address handed out by `user_address`.
pub fn block_address(user: usize) -> (r: usize)
    requires
        user >= ALIGNMENT,
    ensures
        r == user - ALIGNMENT,
        user_address_spec(r) == user,
{
    user - ALIGNMENT
}

/// The address handed out for a block at `block`.
pub open spec fn user_address_spec(block: usize) -> int {
    block + ALIGNMENT
}

/// Every address handed to the native library is `ALIGNMENT`-aligned when the
/// host returned an aligned block, and maps back to that block.
pub proof fn lemma_user_address_aligned(block: usize)
    requires
        block % ALIGNMENT == 0,
        block + ALIGNMENT <= usize::MAX,
    ensures
        user_address_spec(block) % (ALIGNMENT as int) == 0,
        user_address_spec(block) - ALIGNMENT == block,
{
}

/// A request one greater than the platform maximum is answered with an
/// out-of-range status by malloc, calloc and realloc.
pub proof fn lemma_oversize_rejected(command: AllocatorCommand, recorded: Option<usize>)
    requires
        command == AllocatorCommand::Malloc || command == AllocatorCommand::Calloc
            || command == AllocatorCommand::Realloc,
    ensures
        bridge_outcome(command, (MAX_REQUEST + 1) as usize, recorded) == (AllocatorAction::Fail {
            kind: StatusErrorKind::OutOfRange,
        }),
{
}

/// Calloc asks the host for zero-filled memory, and malloc and calloc record
/// the requested size in the header of a block that holds it.
pub proof fn lemma_fresh_block(size: usize, recorded: Option<usize>)
    requires
        size <= MAX_REQUEST,
    ensures
        bridge_outcome(AllocatorCommand::Calloc, size, recorded) == (AllocatorAction::Allocate {
            block_size: (size + ALIGNMENT) as usize,
            zeroed: true,
            recorded_size: size,
        }),
        bridge_outcome(AllocatorCommand::Malloc, size, recorded) == (AllocatorAction::Allocate {
            block_size: (size + ALIGNMENT) as usize,
            zeroed: false,
            recorded_size: size,
        }),
{
}

/// Freeing a block releases exactly the block size that malloc, calloc or
/// realloc asked the host for, recovered from the header alone.
pub proof fn lemma_free_releases_allocated_block(
    command: AllocatorCommand,
    size: usize,
    recorded: Option<usize>,
    ignored: usize,
)
    requires
        command != AllocatorCommand::Free,
        command != AllocatorCommand::Unsupported,
        size <= MAX_REQUEST,
        valid_recorded(recorded),
    ensures
        match bridge_outcome(command, size, recorded) {
            AllocatorAction::Allocate { block_size, recorded_size, .. } => bridge_outcome(
                AllocatorCommand::Free,
                ignored,
                Some(recorded_size),
            ) == (AllocatorAction::Release { block_size }),
            AllocatorAction::Reallocate { new_block_size, recorded_size, .. } => bridge_outcome(
                AllocatorCommand::Free,
                ignored,
                Some(recorded_size),
            ) == (AllocatorAction::Release { block_size: new_block_size }),
            _ => false,
        },
{
}

/// Realloc of a block resizes exactly the block that was allocated, and the
/// prefix the host keeps covers the header and the first `min(old, new)`
/// bytes of the caller's data.
pub proof fn lemma_realloc_keeps_prefix(old: usize, size: usize, ignored: usize)
    requires
        old <= MAX_REQUEST,
        size <= MAX_REQUEST,
    ensures
        bridge_outcome(AllocatorCommand::Realloc, size, Some(old)) == (AllocatorAction::Reallocate {
            old_block_size: (old + ALIGNMENT) as usize,
            new_block_size: (size + ALIGNMENT) as usize,
            recorded_size: size,
        }),
        bridge_outcome(AllocatorCommand::Malloc, old, None) == (AllocatorAction::Allocate {
            block_size: (old + ALIGNMENT) as usize,
            zeroed: false,
            recorded_size: old,
        }),
        vstd::math::min((old + ALIGNMENT) as int, (size + ALIGNMENT) as int) == ALIGNMENT
            + vstd::math::min(old as int, size as int),
{
}

} // verus!
