use fvm_boundary::boundary::{
    begin_execute, complete_execute, create_machine, drop_machine, finish_message, CreateParams,
};
use fvm_boundary::marshal::{ApplyKind, ApplyResult, MessageInput};
use fvm_boundary::registry::MachineRegistry;
use fvm_boundary::response::Status;

/// A well-formed binary content identifier: the 34-byte v0 form, a sha2-256
/// multihash over an empty state tree stands in any valid digest.
fn valid_cid_bytes() -> Vec<u8> {
    let mut b = vec![0x12u8, 0x20];
    b.extend_from_slice(&[0u8; 32]);
    b
}

fn valid_params() -> CreateParams {
    CreateParams {
        engine_version: 0,
        epoch: 100,
        token_amount: 0,
        network_version: 18,
        state_root: valid_cid_bytes(),
        blockstore_id: 1,
        externs_id: 2,
    }
}

/// A well-formed transfer: both addresses are valid ID addresses.
fn transfer_message() -> MessageInput {
    MessageInput {
        version: 0,
        from: vec![0x00, 0x01],
        to: vec![0x00, 0x02],
        sequence: 0,
        value: 100,
        method_num: 0,
        params: Vec::new(),
        gas_limit: 1_000_000,
        gas_fee_cap: 100,
        gas_premium: 5,
    }
}

#[test]
fn scenario_create_execute_drop() {
    let mut reg = MachineRegistry::new();

    let r = create_machine(&mut reg, valid_params());
    assert_eq!(r.status, Status::NoError);
    assert_eq!(r.machine_id, Some(0));
    assert!(r.error_msg.is_none());

    let req = match begin_execute(&reg, 0, transfer_message(), 0) {
        Ok(req) => req,
        Err(_) => panic!("a well-formed message against a live handle must validate"),
    };
    assert_eq!(req.machine_id, 0);
    assert_eq!(req.apply_kind, ApplyKind::Explicit);
    assert_eq!(req.message.value, 100);

    let resp = complete_execute(Ok(ApplyResult {
        exit_code: 0,
        return_data: vec![1, 2, 3],
        gas_used: 1000,
        penalty: 0,
        miner_tip: 7,
    }));
    assert_eq!(resp.status, Status::NoError);
    assert!(resp.error_msg.is_none());
    let payload = resp.payload.expect("a success carries the apply result");
    assert_eq!(payload.exit_code, 0);
    assert_eq!(payload.return_data, vec![1, 2, 3]);
    assert_eq!(payload.gas_used, 1000);
    assert_eq!(payload.miner_tip, 7);

    let d = drop_machine(&mut reg, 0);
    assert_eq!(d.status, Status::NoError);
    assert!(d.error_msg.is_none());

    let resp = match begin_execute(&reg, 0, transfer_message(), 0) {
        Ok(_) => panic!("a dropped handle must not validate"),
        Err(resp) => resp,
    };
    assert_eq!(resp.status, Status::UnclassifiedError);
    assert_eq!(resp.error_msg.as_deref(), Some("invalid machine id"));
    assert!(resp.payload.is_none());
}

#[test]
fn handles_strictly_increase() {
    let mut reg = MachineRegistry::new();
    let mut handles = Vec::new();
    for _ in 0..3 {
        let r = create_machine(&mut reg, valid_params());
        assert_eq!(r.status, Status::NoError);
        handles.push(r.machine_id.expect("a success carries the handle"));
    }
    assert_eq!(handles, vec![0, 1, 2]);
}

#[test]
fn drop_succeeds_exactly_once() {
    let mut reg = MachineRegistry::new();
    let r = create_machine(&mut reg, valid_params());
    let h = r.machine_id.expect("create must succeed");

    let first = drop_machine(&mut reg, h);
    assert_eq!(first.status, Status::NoError);

    let second = drop_machine(&mut reg, h);
    assert_eq!(second.status, Status::UnclassifiedError);
    assert_eq!(second.error_msg.as_deref(), Some("invalid machine id"));
}

#[test]
fn dropped_handle_is_never_reissued() {
    let mut reg = MachineRegistry::new();
    let first = create_machine(&mut reg, valid_params()).machine_id.unwrap();
    drop_machine(&mut reg, first);
    let second = create_machine(&mut reg, valid_params()).machine_id.unwrap();
    assert_ne!(second, first);
    assert!(second > first);
}

#[test]
fn calls_on_unknown_handle_fail_and_change_nothing() {
    let mut reg = MachineRegistry::new();
    let live = create_machine(&mut reg, valid_params()).machine_id.unwrap();

    let exec = match begin_execute(&reg, 42, transfer_message(), 0) {
        Ok(_) => panic!("a handle never issued must not validate"),
        Err(resp) => resp,
    };
    assert_eq!(exec.status, Status::UnclassifiedError);
    assert_eq!(exec.error_msg.as_deref(), Some("invalid machine id"));

    let fin = finish_message(&reg, 42);
    assert_eq!(fin.status, Status::UnclassifiedError);
    assert_eq!(fin.error_msg.as_deref(), Some("invalid machine id"));

    let dropped = drop_machine(&mut reg, 42);
    assert_eq!(dropped.status, Status::UnclassifiedError);

    // The registry is untouched: the live machine still answers.
    let d = drop_machine(&mut reg, live);
    assert_eq!(d.status, Status::NoError);
}

#[test]
fn finish_fails_explicitly_on_a_live_handle() {
    let mut reg = MachineRegistry::new();
    let h = create_machine(&mut reg, valid_params()).machine_id.unwrap();

    let fin = finish_message(&reg, h);
    assert_eq!(fin.status, Status::UnclassifiedError);
    assert_eq!(
        fin.error_msg.as_deref(),
        Some("state finalization is not supported")
    );

    // The failure left the machine alive.
    let d = drop_machine(&mut reg, h);
    assert_eq!(d.status, Status::NoError);
}

#[test]
fn create_stores_the_converted_parameters() {
    let mut reg = MachineRegistry::new();
    let h = create_machine(&mut reg, valid_params()).machine_id.unwrap();

    let m = reg.lookup(h).expect("a created machine is live");
    assert_eq!(m.epoch, 100);
    assert_eq!(m.token_amount, 0);
    assert_eq!(m.network_version, 18);
    assert_eq!(m.state_root, valid_cid_bytes());
    assert_eq!(m.blockstore_id, 1);
    assert_eq!(m.externs_id, 2);
    assert_eq!(m.config.initial_pages, 1024);
    assert_eq!(m.config.max_pages, 32768);

    assert!(reg.lookup(h + 1).is_none());
}
