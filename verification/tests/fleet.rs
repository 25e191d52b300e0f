//! The fleet: IP allocation, the lifecycle state machine, the rendezvous with
//! the agent, and the warm-pool scheduling scenarios.
use lambdo::config::{
    LambdoAgentConfig, LambdoApiConfig, LambdoConfig, LambdoLanguageConfig,
    LambdoLanguageStepConfig, LambdoLanguageStepOutputConfig, LambdoVMMConfig,
};
use lambdo::grpc_server::{register, status, StatusAction};
use lambdo::model::LanguageSettings;
use lambdo::net::find_available_ip;
use lambdo::protocol::{Code, ExecuteRequest, ExecuteResponse, ExecuteResponseStep, RegisterResponse};
use lambdo::state::{ExecuteOutcome, LambdoState, VMState, VMStatus};
use lambdo::vm_manager::VMManager;
use lambdo::vmm::{Error, Ipv4Net, VMMOpts};

const BRIDGE: u32 = 0xC0A80A01; // 192.168.10.1
const GUEST_2: u32 = 0xC0A80A02;
const GUEST_3: u32 = 0xC0A80A03;
const GUEST_4: u32 = 0xC0A80A04;

fn node_config() -> LambdoConfig {
    LambdoConfig {
        apiVersion: "lambdo.io/v1alpha1".to_string(),
        kind: "Config".to_string(),
        api: LambdoApiConfig {
            web_host: "0.0.0.0".to_string(),
            web_port: 3000,
            grpc_host: "0.0.0.0".to_string(),
            gprc_port: 50051,
            bridge: "lambdo0".to_string(),
            bridge_address: "192.168.10.1/24".to_string(),
        },
        vmm: LambdoVMMConfig {
            kernel: "/var/lib/lambdo/kernel/vmlinux.bin".to_string(),
        },
        agent: LambdoAgentConfig {
            path: "/usr/local/bin/lambdo-agent".to_string(),
            config: "/etc/lambdo/agent.yaml".to_string(),
        },
        languages: vec![LambdoLanguageConfig {
            name: "node".to_string(),
            version: "1.0".to_string(),
            initramfs: "node.img".to_string(),
            steps: vec![LambdoLanguageStepConfig {
                name: None,
                command: "node {{filename}}".to_string(),
                output: LambdoLanguageStepOutputConfig {
                    enabled: true,
                    debug: false,
                },
            }],
        }],
    }
}

fn node_lang() -> LanguageSettings {
    LanguageSettings {
        name: "node".to_string(),
        version: "1.0".to_string(),
        initramfs: "node.img".to_string(),
    }
}

fn opts_with_ip(ip: u32) -> VMMOpts {
    VMMOpts {
        kernel: "kernel".to_string(),
        cpus: 1,
        memory: 1024,
        console: None,
        socket: None,
        initramfs: Some("node.img".to_string()),
        tap: Some("tap-0".to_string()),
        ip: Some(Ipv4Net {
            address: ip,
            prefix: 24,
        }),
        gateway: Some("192.168.10.1".to_string()),
    }
}

fn exec_request(id: &str) -> ExecuteRequest {
    ExecuteRequest {
        id: id.to_string(),
        files: vec![],
        steps: vec![],
    }
}

fn one_step_response(id: &str, stdout: &str) -> ExecuteResponse {
    ExecuteResponse {
        id: id.to_string(),
        steps: vec![ExecuteResponseStep {
            command: "node index.js".to_string(),
            stdout: stdout.to_string(),
            stderr: "".to_string(),
            exit_code: 0,
        }],
    }
}

/// Brings the record at `index` from `Waiting` to `Ready` the way the agent
/// does: `Register` from its guest IP, then `Status(Ready)`, the dial, and
/// only after the successful dial the record becomes `Ready`.
fn rendezvous(state: &mut LambdoState, index: usize, caller_ip: u32, port: u32) -> String {
    let id = match register(state, caller_ip, port) {
        RegisterResponse::Id(id) => id,
        RegisterResponse::Error(m) => panic!("register failed: {}", m),
    };
    assert_eq!(id, state.vms[index].id);
    let action = status(state, &id, Code::Ready).unwrap();
    match action {
        StatusAction::Dial { index: i, address } => {
            assert_eq!(i, index);
            // The dial order changes nothing yet.
            assert_eq!(state.vms[i].get_state(), VMStatus::Waiting);
            state.ready(i).unwrap();
            assert!(!address.is_empty());
            address
        }
        StatusAction::Nothing => panic!("expected a dial order"),
    }
}

#[test]
fn allocator_returns_lowest_free_address() {
    let state = LambdoState::new(node_config());
    let bridge = Ipv4Net {
        address: BRIDGE,
        prefix: 24,
    };
    assert_eq!(find_available_ip(&state, bridge).unwrap(), GUEST_2);

    let mut state = LambdoState::new(node_config());
    state
        .insert_vm(VMState::new(
            "a".to_string(),
            opts_with_ip(GUEST_2),
            node_lang(),
            false,
        ))
        .unwrap();
    assert_eq!(find_available_ip(&state, bridge).unwrap(), GUEST_3);
}

#[test]
fn allocator_reuses_addresses_of_ended_vms() {
    let mut state = LambdoState::new(node_config());
    state
        .insert_vm(VMState::new(
            "a".to_string(),
            opts_with_ip(GUEST_2),
            node_lang(),
            false,
        ))
        .unwrap();
    state.mark_ended(0);
    let bridge = Ipv4Net {
        address: BRIDGE,
        prefix: 24,
    };
    assert_eq!(find_available_ip(&state, bridge).unwrap(), GUEST_2);
}

#[test]
fn allocator_reports_exhaustion() {
    // A /30 network around 10.0.0.1 leaves only 10.0.0.2 and 10.0.0.3.
    let mut state = LambdoState::new(node_config());
    state
        .insert_vm(VMState::new(
            "a".to_string(),
            opts_with_ip(0x0A000002),
            node_lang(),
            false,
        ))
        .unwrap();
    state
        .insert_vm(VMState::new(
            "b".to_string(),
            opts_with_ip(0x0A000003),
            node_lang(),
            false,
        ))
        .unwrap();
    let bridge = Ipv4Net {
        address: 0x0A000001,
        prefix: 30,
    };
    assert!(matches!(
        find_available_ip(&state, bridge),
        Err(Error::NoIPAvalaible)
    ));
}

#[test]
fn insert_refuses_a_second_record_on_the_same_ip() {
    let mut state = LambdoState::new(node_config());
    state
        .insert_vm(VMState::new(
            "a".to_string(),
            opts_with_ip(GUEST_2),
            node_lang(),
            false,
        ))
        .unwrap();
    let second = VMState::new("b".to_string(), opts_with_ip(GUEST_2), node_lang(), false);
    assert!(state.insert_vm(second).is_err());
    // Once the holder ended, the address may be taken again.
    state.mark_ended(0);
    let second = VMState::new("b".to_string(), opts_with_ip(GUEST_2), node_lang(), false);
    assert!(state.insert_vm(second).is_ok());
}

#[test]
fn transitions_only_move_forward_and_publish_once() {
    let mut state = LambdoState::new(node_config());
    state
        .insert_vm(VMState::new(
            "a".to_string(),
            opts_with_ip(GUEST_2),
            node_lang(),
            false,
        ))
        .unwrap();
    assert_eq!(state.events.len(), 1);
    assert_eq!(state.events[0].status, VMStatus::Waiting);

    state.transition(0, VMStatus::Running).unwrap();
    assert_eq!(state.events.len(), 2);
    assert_eq!(state.events[1].status, VMStatus::Running);

    // Backward and repeated moves are refused and publish nothing.
    assert!(state.transition(0, VMStatus::Ready).is_err());
    assert!(state.transition(0, VMStatus::Running).is_err());
    assert_eq!(state.events.len(), 2);

    state.transition(0, VMStatus::Ended).unwrap();
    assert_eq!(state.vms[0].get_state(), VMStatus::Ended);
    assert!(state.transition(0, VMStatus::Running).is_err());
    assert_eq!(state.events.len(), 3);
}

#[test]
fn find_ready_prefers_the_earliest_inserted_record() {
    let lang = node_lang();
    let mut state = LambdoState::new(node_config());
    // A reserved ready record, then two unreserved ready ones, then a busy
    // one of another language.
    state
        .insert_vm(VMState::new("r".to_string(), opts_with_ip(GUEST_2), node_lang(), true))
        .unwrap();
    state
        .insert_vm(VMState::new("a".to_string(), opts_with_ip(GUEST_3), node_lang(), false))
        .unwrap();
    state
        .insert_vm(VMState::new("b".to_string(), opts_with_ip(GUEST_4), node_lang(), false))
        .unwrap();
    state.transition(0, VMStatus::Ready).unwrap();
    state.transition(1, VMStatus::Ready).unwrap();
    state.transition(2, VMStatus::Ready).unwrap();

    // The reserved record is passed over; the older of the two free ones is
    // chosen, so the oldest warm VM never goes stale.
    assert_eq!(state.find_ready_vms(&lang), Some(1));

    state.transition(1, VMStatus::Running).unwrap();
    assert_eq!(state.find_ready_vms(&lang), Some(2));

    let other = LanguageSettings {
        name: "python".to_string(),
        version: "3.0".to_string(),
        initramfs: "python.img".to_string(),
    };
    assert_eq!(state.find_ready_vms(&other), None);
}

#[test]
fn register_without_a_matching_vm_is_an_error() {
    let mut state = LambdoState::new(node_config());
    match register(&mut state, GUEST_2, 4567) {
        RegisterResponse::Error(m) => assert_eq!(m, "No VM found for this IP"),
        RegisterResponse::Id(_) => panic!("no record should answer"),
    }
}

#[test]
fn register_with_two_holders_of_one_ip_is_an_error() {
    // Such a fleet can only come from an allocator fault; built by hand here.
    let mut state = LambdoState::new(node_config());
    state.vms.push(VMState::new(
        "a".to_string(),
        opts_with_ip(GUEST_2),
        node_lang(),
        false,
    ));
    state.vms.push(VMState::new(
        "b".to_string(),
        opts_with_ip(GUEST_2),
        node_lang(),
        false,
    ));
    match register(&mut state, GUEST_2, 4567) {
        RegisterResponse::Error(m) => assert_eq!(m, "Multiple VM found for this IP"),
        RegisterResponse::Id(_) => panic!("ambiguous IP must not register"),
    }
}

#[test]
fn register_with_an_oversized_port_ends_the_record() {
    let mut state = LambdoState::new(node_config());
    state
        .insert_vm(VMState::new(
            "a".to_string(),
            opts_with_ip(GUEST_2),
            node_lang(),
            false,
        ))
        .unwrap();
    match register(&mut state, GUEST_2, 70000) {
        RegisterResponse::Error(m) => assert_eq!(m, "Failed to register VM"),
        RegisterResponse::Id(_) => panic!("an oversized port must not register"),
    }
    assert_eq!(state.vms[0].get_state(), VMStatus::Ended);
}

#[test]
fn status_with_unknown_id_is_not_found() {
    let mut state = LambdoState::new(node_config());
    assert!(matches!(
        status(&mut state, &"missing".to_string(), Code::Ready),
        Err(Error::VmNotFound)
    ));
}

#[test]
fn status_error_ends_the_record() {
    let mut state = LambdoState::new(node_config());
    state
        .insert_vm(VMState::new(
            "a".to_string(),
            opts_with_ip(GUEST_2),
            node_lang(),
            false,
        ))
        .unwrap();
    let action = status(&mut state, &"a".to_string(), Code::Error).unwrap();
    assert!(matches!(action, StatusAction::Nothing));
    assert_eq!(state.vms[0].get_state(), VMStatus::Ended);
}

#[test]
fn warm_cold_start_boots_and_readies_one_vm() {
    let mut manager = VMManager::new(LambdoState::new(node_config()));
    let orders = manager.warm_startup().unwrap();
    assert_eq!(orders.len(), 1);
    assert_eq!(manager.state.vms.len(), 1);
    assert_eq!(manager.state.vms[0].get_state(), VMStatus::Waiting);
    assert!(!manager.state.vms[0].reserved);
    let (id, opts) = &orders[0];
    assert_eq!(id.len(), 36);
    assert_eq!(opts.tap.as_ref().unwrap(), &format!("tap-{}", &id[0..8]));
    assert_eq!(opts.gateway.as_ref().unwrap(), "192.168.10.1");

    let address = rendezvous(&mut manager.state, 0, GUEST_2, 12345);
    assert_eq!(address, "http://192.168.10.2:12345");
    assert_eq!(manager.state.vms[0].get_state(), VMStatus::Ready);

    // The status event sequence of the one record: booting, then ready.
    let statuses: Vec<VMStatus> = manager.state.events.iter().map(|e| e.status).collect();
    assert_eq!(statuses, vec![VMStatus::Waiting, VMStatus::Ready]);
}

#[test]
fn two_concurrent_requests_with_pool_size_one() {
    let lang = node_lang();
    let mut manager = VMManager::new(LambdoState::new(node_config()));
    manager.warm_startup().unwrap();
    rendezvous(&mut manager.state, 0, GUEST_2, 5000);

    // The first request takes the warm VM.
    let hit = manager.state.find_ready_vms(&lang).unwrap();
    assert_eq!(hit, 0);
    let id0 = manager.state.vms[0].id.clone();
    manager.state.execute_begin(hit, exec_request("req-a")).unwrap();

    // The background listener sees the Running event of an unreserved record
    // and refills the pool for its language.
    let refill = manager.refill_decision(&id0, VMStatus::Running).unwrap();
    assert_eq!(refill.name, "node");
    manager.run_vm(&refill, false).unwrap();
    assert!(!manager.state.vms[1].reserved);

    // The second request finds no ready VM and boots a reserved one.
    assert!(manager.state.find_ready_vms(&lang).is_none());
    let (id2, _) = manager.run_vm(&lang, true).unwrap();
    assert!(manager.state.vms[2].reserved);
    // Its boot must not trigger another refill once it is taken.
    assert!(manager.refill_decision(&id2, VMStatus::Running).is_none());

    // The reserved VM comes up and the waiting request takes it.
    rendezvous(&mut manager.state, 2, GUEST_4, 6000);
    manager.state.execute_begin(2, exec_request("req-b")).unwrap();

    // Both requests get their responses; both records end.
    let resp_a = manager
        .state
        .execute_finish(0, ExecuteOutcome::Response(one_step_response("req-a", "A")))
        .unwrap();
    let resp_b = manager
        .state
        .execute_finish(2, ExecuteOutcome::Response(one_step_response("req-b", "B")))
        .unwrap();
    assert_eq!(resp_a.steps[0].stdout, "A");
    assert_eq!(resp_b.steps[0].stdout, "B");
    assert_eq!(manager.state.vms[0].get_state(), VMStatus::Ended);
    assert_eq!(manager.state.vms[2].get_state(), VMStatus::Ended);

    // Steady state: exactly one unreserved VM of the language is warm again.
    let warm = manager
        .state
        .vms
        .iter()
        .filter(|vm| {
            !vm.reserved
                && (vm.get_state() == VMStatus::Waiting || vm.get_state() == VMStatus::Ready)
        })
        .count();
    assert_eq!(warm, 1);
}

#[test]
fn execute_finish_reports_timeouts_and_failures() {
    let mut manager = VMManager::new(LambdoState::new(node_config()));
    manager.warm_startup().unwrap();
    rendezvous(&mut manager.state, 0, GUEST_2, 5000);
    manager.state.execute_begin(0, exec_request("req-a")).unwrap();
    assert!(matches!(
        manager.state.execute_finish(0, ExecuteOutcome::Timeout),
        Err(Error::Timeout)
    ));
    assert_eq!(manager.state.vms[0].get_state(), VMStatus::Ended);

    // The first record ended, so its address is free again and the new boot
    // takes it.
    let (_, _) = manager.run_vm(&node_lang(), true).unwrap();
    rendezvous(&mut manager.state, 1, GUEST_2, 5001);
    manager.state.execute_begin(1, exec_request("req-b")).unwrap();
    assert!(matches!(
        manager.state.execute_finish(1, ExecuteOutcome::RpcError),
        Err(Error::ExecutionError)
    ));
    assert_eq!(manager.state.vms[1].get_state(), VMStatus::Ended);
}

#[test]
fn execute_begin_refuses_an_ended_record() {
    let mut manager = VMManager::new(LambdoState::new(node_config()));
    manager.warm_startup().unwrap();
    rendezvous(&mut manager.state, 0, GUEST_2, 5000);
    manager.state.mark_ended(0);
    assert!(matches!(
        manager.state.execute_begin(0, exec_request("req-a")),
        Err(Error::VmAlreadyEnded)
    ));
}

#[test]
fn execute_begin_refuses_a_record_already_running() {
    let mut manager = VMManager::new(LambdoState::new(node_config()));
    manager.warm_startup().unwrap();
    rendezvous(&mut manager.state, 0, GUEST_2, 5000);
    manager.state.execute_begin(0, exec_request("req-a")).unwrap();
    assert!(matches!(
        manager.state.execute_begin(0, exec_request("req-b")),
        Err(Error::VmAlreadyEnded)
    ));
}

#[test]
fn backward_transition_is_a_bad_agent_status() {
    let mut state = LambdoState::new(node_config());
    state
        .insert_vm(VMState::new(
            "a".to_string(),
            opts_with_ip(GUEST_2),
            node_lang(),
            false,
        ))
        .unwrap();
    state.transition(0, VMStatus::Running).unwrap();
    assert!(matches!(
        state.transition(0, VMStatus::Ready),
        Err(Error::BadAgentStatus)
    ));
}
