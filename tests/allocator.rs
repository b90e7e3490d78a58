use iree_runtime::allocator::Allocator;
use iree_runtime::allocator::AllocatorAction;
use iree_runtime::allocator::AllocatorCommand;
use iree_runtime::allocator::AllocatorVariant;
use iree_runtime::allocator::block_address;
use iree_runtime::allocator::user_address;
use iree_runtime::allocator::ALIGNMENT;
use iree_runtime::allocator::MAX_REQUEST;
use iree_runtime::status::StatusErrorKind;

#[test]
fn raw_commands_decode() {
    assert_eq!(AllocatorCommand::from_raw(0), AllocatorCommand::Malloc);
    assert_eq!(AllocatorCommand::from_raw(1), AllocatorCommand::Calloc);
    assert_eq!(AllocatorCommand::from_raw(2), AllocatorCommand::Realloc);
    assert_eq!(AllocatorCommand::from_raw(3), AllocatorCommand::Free);
    assert_eq!(AllocatorCommand::from_raw(4), AllocatorCommand::Unsupported);
}

#[test]
fn malloc_adds_header() {
    let a = Allocator::get_global();
    assert_eq!(a.variant, AllocatorVariant::Bridging);
    assert_eq!(
        a.control(AllocatorCommand::Malloc, 100, None),
        AllocatorAction::Allocate { block_size: 116, zeroed: false, recorded_size: 100 }
    );
}

#[test]
fn calloc_is_zeroed() {
    let a = Allocator::get_global();
    assert_eq!(
        a.control(AllocatorCommand::Calloc, 0, None),
        AllocatorAction::Allocate { block_size: ALIGNMENT, zeroed: true, recorded_size: 0 }
    );
}

#[test]
fn realloc_of_null_is_malloc() {
    let a = Allocator::get_global();
    assert_eq!(
        a.control(AllocatorCommand::Realloc, 8, None),
        AllocatorAction::Allocate { block_size: 24, zeroed: false, recorded_size: 8 }
    );
}

#[test]
fn realloc_uses_recorded_size() {
    let a = Allocator::get_global();
    assert_eq!(
        a.control(AllocatorCommand::Realloc, 64, Some(32)),
        AllocatorAction::Reallocate { old_block_size: 48, new_block_size: 80, recorded_size: 64 }
    );
}

#[test]
fn free_releases_recorded_block() {
    let a = Allocator::get_global();
    assert_eq!(
        a.control(AllocatorCommand::Free, 0, Some(100)),
        AllocatorAction::Release { block_size: 116 }
    );
    assert_eq!(a.control(AllocatorCommand::Free, 0, None), AllocatorAction::Nothing);
}

#[test]
fn oversize_requests_are_out_of_range() {
    let a = Allocator::get_global();
    let too_big = MAX_REQUEST + 1;
    let fail = AllocatorAction::Fail { kind: StatusErrorKind::OutOfRange };
    assert_eq!(MAX_REQUEST, isize::MAX as usize);
    assert_eq!(a.control(AllocatorCommand::Malloc, too_big, None), fail);
    assert_eq!(a.control(AllocatorCommand::Calloc, too_big, None), fail);
    assert_eq!(a.control(AllocatorCommand::Realloc, too_big, Some(4)), fail);
    assert_eq!(a.control(AllocatorCommand::Realloc, too_big, None), fail);
}

#[test]
fn largest_request_is_accepted() {
    let a = Allocator::get_global();
    assert_eq!(
        a.control(AllocatorCommand::Malloc, MAX_REQUEST, None),
        AllocatorAction::Allocate {
            block_size: MAX_REQUEST + ALIGNMENT,
            zeroed: false,
            recorded_size: MAX_REQUEST,
        }
    );
}

#[test]
fn unknown_command_is_unimplemented() {
    let a = Allocator::get_global();
    assert_eq!(
        a.control(AllocatorCommand::Unsupported, 1, None),
        AllocatorAction::Fail { kind: StatusErrorKind::Unimplemented }
    );
}

#[test]
fn null_allocator_does_nothing() {
    let a = Allocator::null_allocator();
    assert_eq!(a.variant, AllocatorVariant::Null);
    assert_eq!(a.control(AllocatorCommand::Free, 0, Some(12)), AllocatorAction::Nothing);
    assert_eq!(a.control(AllocatorCommand::Malloc, 12, None), AllocatorAction::Nothing);
}

#[test]
fn addresses_stay_aligned() {
    let user = user_address(0x1000);
    assert_eq!(user, 0x1010);
    assert_eq!(user % ALIGNMENT, 0);
    assert_eq!(block_address(user), 0x1000);
}
