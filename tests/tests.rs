#[test]
fn it_works() {
    let result = 2 + 2;
    assert_eq!(result, 4);
}

#[test]
fn pipe_pump_pipe() {}

#[test]
fn pipe_pump_valve_pipe() {}
