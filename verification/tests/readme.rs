use ordered_mutex::LockError;
use ordered_mutex::Mutex;
use ordered_mutex::MutexGuard;
use ordered_mutex::ThreadState;

// The GPU lock ordering: a thread must acquire the device tracker before
// any buffer map state. In the engine a rank is its integer code.
const DEVICE_TRACKER: u32 = 0;
const BUFFER_MAP_STATE: u32 = 1;

struct Tracker;
struct BufferMapState;

struct Device {
    tracker: Mutex<Tracker>,
}

struct Buffer {
    map_state: Mutex<BufferMapState>,
}

/// Acquire, treating an ordering violation as fatal and accepting a
/// poisoned lock's guard (poison cannot occur in these tests).
fn acquire<'a, T>(m: &'a Mutex<T>, rank: &mut ThreadState) -> MutexGuard<'a, T> {
    match m.lock(rank) {
        Ok(guard) => guard,
        Err(LockError::Poisoned(guard)) => guard,
        Err(LockError::Violation(_)) => panic!("Attempted to acquire lock out of order"),
    }
}

#[test]
fn in_order() {
    let mut rank = ThreadState::new();
    let device = Device {
        tracker: Mutex::new(Tracker, DEVICE_TRACKER),
    };
    let buffer = Buffer {
        map_state: Mutex::new(BufferMapState, BUFFER_MAP_STATE),
    };

    {
        let tracker_guard = acquire(&device.tracker, &mut rank);
        let map_state_guard = acquire(&buffer.map_state, &mut rank);
        map_state_guard.release(&mut rank);
        tracker_guard.release(&mut rank);
    }

    {
        let map_state_guard = acquire(&buffer.map_state, &mut rank);
        map_state_guard.release(&mut rank);
    }

    {
        let tracker_guard = acquire(&device.tracker, &mut rank);
        tracker_guard.release(&mut rank);
    }

    {
        let tracker_guard = acquire(&device.tracker, &mut rank);
        let map_state_guard = acquire(&buffer.map_state, &mut rank);
        map_state_guard.release(&mut rank);
        tracker_guard.release(&mut rank);
    }
}

#[test]
#[should_panic]
fn out_of_order() {
    let mut rank = ThreadState::new();
    let device = Device {
        tracker: Mutex::new(Tracker, DEVICE_TRACKER),
    };
    let buffer = Buffer {
        map_state: Mutex::new(BufferMapState, BUFFER_MAP_STATE),
    };

    let _map_state_guard = acquire(&buffer.map_state, &mut rank);
    let _tracker_guard = acquire(&device.tracker, &mut rank);
}

// Dropping lock guards out of order should still clear the state.
#[test]
fn staggered_clear() {
    let mut rank = ThreadState::new();
    let tracker: Mutex<()> = Mutex::new((), DEVICE_TRACKER);
    let map_state: Mutex<()> = Mutex::new((), BUFFER_MAP_STATE);

    let tracker_guard = acquire(&tracker, &mut rank);
    let map_state_guard = acquire(&map_state, &mut rank);

    // Releasing both guards, in acquisition order rather than reverse
    // order, should return the thread to a holding-no-locks state.
    tracker_guard.release(&mut rank);
    map_state_guard.release(&mut rank);

    let _second_tracker_guard = acquire(&tracker, &mut rank);
}

// Dropping lock guards out of order should retain other guards.
#[test]
#[should_panic]
fn staggered_retain() {
    let mut rank = ThreadState::new();
    let tracker: Mutex<()> = Mutex::new((), DEVICE_TRACKER);
    let map_state: Mutex<()> = Mutex::new((), BUFFER_MAP_STATE);

    let tracker_guard = acquire(&tracker, &mut rank);
    let _map_state_guard = acquire(&map_state, &mut rank);

    // Releasing the lower-ranked guard should not remove the
    // higher-ranked guard.
    tracker_guard.release(&mut rank);
    let _second_tracker_guard = acquire(&tracker, &mut rank);
}
