use frpc::output::{FutState, Step};

#[test]
fn first_poll_starts_the_call() {
    let mut st: FutState<u8, u32> = FutState::new(20);
    let r: Step<String, u32> = st.poll(|s| Ok(s as u32 * 2), |fut| *fut + 1);
    assert!(matches!(r, Step::Polled(41)));
    assert!(matches!(st, FutState::Poll(40)));
}

#[test]
fn later_polls_only_poll() {
    let mut st: FutState<u8, u32> = FutState::new(1);
    let _: Step<(), u32> = st.poll(|s| Ok(s as u32), |fut| {
        *fut += 10;
        *fut
    });
    let mut started = false;
    let r: Step<(), u32> = st.poll(
        |s| {
            started = true;
            Ok(s as u32)
        },
        |fut| {
            *fut += 10;
            *fut
        },
    );
    assert!(!started);
    assert!(matches!(r, Step::Polled(21)));
    assert!(matches!(st, FutState::Poll(21)));
}

#[test]
fn failed_start_ends_the_call() {
    let mut st: FutState<&str, u32> = FutState::new("not a number");
    let mut polled = false;
    let r = st.poll(
        |s: &str| s.parse::<u32>().map_err(|_| "invalid input"),
        |fut| {
            polled = true;
            *fut
        },
    );
    assert!(matches!(r, Step::DecodeFailed("invalid input")));
    assert!(matches!(st, FutState::Done));
    assert!(!polled);
}
