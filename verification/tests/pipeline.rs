use gateway_probe::address::NetworkAddress;
use gateway_probe::outcome::{Failure, Outcome};
use gateway_probe::pipeline::{Action, Stage, Step};

/// The canned answers of the outside world.
struct World {
    routes: Outcome,
    probe: Outcome,
    cache: Outcome,
    directory: Outcome,
    netbios: Outcome,
    vendor: Outcome,
}

/// What a run did: the actions it asked for, the lines it reported and how
/// it stopped.
struct Run {
    actions: Vec<Action>,
    lines: Vec<String>,
    end: Action,
}

fn written(output: &str) -> Outcome {
    Outcome::Exited { success: true, output: output.to_string() }
}

fn copy_of(outcome: &Outcome) -> Outcome {
    match outcome {
        Outcome::Unavailable => Outcome::Unavailable,
        Outcome::Exited { success, output } => {
            Outcome::Exited { success: *success, output: output.clone() }
        }
        Outcome::Responded { status, body } => {
            Outcome::Responded { status: *status, body: body.clone() }
        }
    }
}

fn command(words: &[&str]) -> Action {
    Action::Run { command: words.iter().map(|word| word.to_string()).collect() }
}

fn fetch(url: &str) -> Action {
    Action::Fetch { url: url.to_string() }
}

fn answer(world: &World, command: &[String]) -> Outcome {
    let words: Vec<&str> = command.iter().map(|word| word.as_str()).collect();
    match words.as_slice() {
        ["ip", "route"] => copy_of(&world.routes),
        ["ping", "-c", "1", "-W", "1", _] => copy_of(&world.probe),
        ["ip", "neigh"] => copy_of(&world.cache),
        ["getent", "hosts", _] => copy_of(&world.directory),
        ["nmblookup", "-A", _] => copy_of(&world.netbios),
        other => panic!("no such command: {:?}", other),
    }
}

fn run(world: &World) -> Run {
    let mut stage = Stage::start();
    let mut actions = Vec::new();
    let mut lines = Vec::new();
    for _ in 0..16 {
        let action = stage.action();
        let outcome = match &action {
            Action::Run { command } => answer(world, command),
            Action::Fetch { .. } => copy_of(&world.vendor),
            Action::Finish | Action::Abort { .. } => return Run { actions, lines, end: action },
        };
        actions.push(action);
        let step = stage.advance(&outcome);
        if let Some(line) = step.line {
            lines.push(line);
        }
        stage = step.stage;
    }
    panic!("the run did not stop");
}

fn home_network() -> World {
    World {
        routes: written(
            "default via 192.168.1.1 dev wlan0 proto dhcp metric 600\n\
             192.168.1.0/24 dev wlan0 proto kernel scope link src 192.168.1.23 metric 600\n",
        ),
        probe: written("PING 192.168.1.1 (192.168.1.1) 56(84) bytes of data.\n"),
        cache: written(
            "192.168.1.40 dev wlan0 lladdr 00:11:22:33:44:55 STALE\n\
             192.168.1.1 dev wlan0 lladdr 11:22:33:44:55:66 REACHABLE\n",
        ),
        directory: written("192.168.1.1     router.local\n"),
        netbios: written("\tNETBIOSNAME     <00> -         B <ACTIVE> \n"),
        vendor: Outcome::Responded { status: 200, body: Some("TP-Link".to_string()) },
    }
}

const ROUTER: NetworkAddress = NetworkAddress(192, 168, 1, 1);

#[test]
fn run_reports_address_hardware_name_and_vendor() {
    let run = run(&home_network());
    assert_eq!(
        run.lines,
        vec![
            "IP router: 192.168.1.1",
            "MAC router: 11:22:33:44:55:66",
            "Hostname router: router.local",
            "Router vendor: TP-Link",
        ]
    );
    assert_eq!(run.end, Action::Finish);
    assert_eq!(
        run.actions,
        vec![
            command(&["ip", "route"]),
            command(&["ping", "-c", "1", "-W", "1", "192.168.1.1"]),
            command(&["ip", "neigh"]),
            command(&["getent", "hosts", "192.168.1.1"]),
            fetch("https://api.macvendors.com/11:22:33:44:55:66"),
        ]
    );
}

#[test]
fn run_reports_unknown_name_and_vendor_and_still_the_hardware_address() {
    let mut world = home_network();
    world.directory = Outcome::Exited { success: false, output: String::new() };
    world.netbios = written("Looking up status of 192.168.1.1\nNo reply from 192.168.1.1\n");
    world.vendor = Outcome::Responded {
        status: 404,
        body: Some("{\"errors\":{\"detail\":\"Not Found\"}}".to_string()),
    };
    let run = run(&world);
    assert_eq!(
        run.lines,
        vec![
            "IP router: 192.168.1.1",
            "MAC router: 11:22:33:44:55:66",
            "Hostname router: Unknown",
            "Unable to determine vendor by MAC",
        ]
    );
    assert_eq!(run.end, Action::Finish);
    assert_eq!(
        run.actions,
        vec![
            command(&["ip", "route"]),
            command(&["ping", "-c", "1", "-W", "1", "192.168.1.1"]),
            command(&["ip", "neigh"]),
            command(&["getent", "hosts", "192.168.1.1"]),
            command(&["nmblookup", "-A", "192.168.1.1"]),
            fetch("https://api.macvendors.com/11:22:33:44:55:66"),
        ]
    );
}

#[test]
fn run_prefers_the_directory_name_over_the_netbios_name() {
    let run = run(&home_network());
    assert_eq!(run.lines[2], "Hostname router: router.local");
    assert!(!run.actions.contains(&command(&["nmblookup", "-A", "192.168.1.1"])));
    assert_eq!(run.actions.len(), 5);
}

#[test]
fn run_falls_back_to_the_netbios_name() {
    for directory in [
        Outcome::Unavailable,
        Outcome::Exited { success: false, output: "192.168.1.1 router.local\n".to_string() },
        written(""),
        written("192.168.1.1\n"),
    ] {
        let mut world = home_network();
        world.directory = directory;
        let run = run(&world);
        assert_eq!(run.lines[2], "Hostname router: NETBIOSNAME");
        assert_eq!(run.lines.len(), 4);
        assert_eq!(run.actions[4], command(&["nmblookup", "-A", "192.168.1.1"]));
        assert_eq!(run.end, Action::Finish);
    }
}

#[test]
fn run_reports_unknown_name_when_neither_mechanism_answers() {
    for netbios in [
        Outcome::Unavailable,
        written(""),
        written("\tWORKGROUP       <00> - <GROUP> B <ACTIVE> \n"),
    ] {
        let mut world = home_network();
        world.directory = Outcome::Unavailable;
        world.netbios = netbios;
        let run = run(&world);
        assert_eq!(run.lines[2], "Hostname router: Unknown");
        assert_eq!(run.lines[3], "Router vendor: TP-Link");
        assert_eq!(run.end, Action::Finish);
    }
}

#[test]
fn run_reports_unknown_vendor_alike_on_error_and_on_not_found() {
    let mut unreachable_service = home_network();
    unreachable_service.vendor = Outcome::Unavailable;
    let mut not_found = home_network();
    not_found.vendor = Outcome::Responded { status: 404, body: None };
    let mut refused = home_network();
    refused.vendor =
        Outcome::Responded { status: 503, body: Some("Service Unavailable".to_string()) };
    assert_eq!(run(&refused).lines, run(&not_found).lines);
    let first = run(&unreachable_service);
    let second = run(&not_found);
    assert_eq!(first.lines[3], "Unable to determine vendor by MAC");
    assert_eq!(first.lines, second.lines);
    assert_eq!(first.actions, second.actions);
    assert_eq!(first.end, Action::Finish);
    assert_eq!(second.end, Action::Finish);
}

#[test]
fn run_aborts_without_output_when_the_gateway_is_not_found() {
    for routes in [
        Outcome::Unavailable,
        written(""),
        written("192.168.1.0/24 dev wlan0 proto kernel scope link src 192.168.1.23\n"),
        written("default via\n"),
        written("default via fe80::1 dev wlan0\n"),
    ] {
        let mut world = home_network();
        world.routes = routes;
        let run = run(&world);
        assert_eq!(run.lines, Vec::<String>::new());
        assert_eq!(run.actions, vec![command(&["ip", "route"])]);
        assert_eq!(run.end, Action::Abort { failure: Failure::GatewayNotFound });
    }
}

#[test]
fn run_aborts_when_the_probe_cannot_be_sent() {
    let mut world = home_network();
    world.probe = Outcome::Unavailable;
    let run = run(&world);
    assert_eq!(run.lines, vec!["IP router: 192.168.1.1"]);
    assert_eq!(
        run.actions,
        vec![command(&["ip", "route"]), command(&["ping", "-c", "1", "-W", "1", "192.168.1.1"])]
    );
    assert_eq!(run.end, Action::Abort { failure: Failure::HardwareAddressNotFound });
}

#[test]
fn run_goes_on_whatever_comes_of_the_probe() {
    let mut world = home_network();
    world.probe = Outcome::Exited {
        success: false,
        output: "1 packets transmitted, 0 received, 100% packet loss, time 0ms\n".to_string(),
    };
    let run = run(&world);
    assert_eq!(run.lines.len(), 4);
    assert_eq!(run.lines[1], "MAC router: 11:22:33:44:55:66");
    assert_eq!(run.end, Action::Finish);
}

#[test]
fn run_aborts_when_the_hardware_address_is_not_found() {
    for cache in [
        Outcome::Unavailable,
        written(""),
        written("192.168.1.1 dev wlan0  FAILED\n"),
        written("192.168.1.1 dev wlan0 lladdr\n"),
        written("192.168.1.40 dev wlan0 lladdr 00:11:22:33:44:55 STALE\n"),
    ] {
        let mut world = home_network();
        world.cache = cache;
        let run = run(&world);
        assert_eq!(run.lines, vec!["IP router: 192.168.1.1"]);
        assert_eq!(
            run.actions,
            vec![
                command(&["ip", "route"]),
                command(&["ping", "-c", "1", "-W", "1", "192.168.1.1"]),
                command(&["ip", "neigh"]),
            ]
        );
        assert_eq!(run.end, Action::Abort { failure: Failure::HardwareAddressNotFound });
    }
}

#[test]
fn stage_start_reads_the_routing_table() {
    assert_eq!(Stage::start(), Stage::RoutingTable);
    assert_eq!(Stage::start().action(), command(&["ip", "route"]));
}

#[test]
fn stage_action_of_each_stage() {
    let hardware = "aa:bb:cc:dd:ee:ff".to_string();
    let gateway = NetworkAddress(10, 20, 30, 254);
    assert_eq!(Stage::RoutingTable.action(), command(&["ip", "route"]));
    assert_eq!(
        Stage::Probe { gateway }.action(),
        command(&["ping", "-c", "1", "-W", "1", "10.20.30.254"])
    );
    assert_eq!(Stage::NeighborCache { gateway }.action(), command(&["ip", "neigh"]));
    assert_eq!(
        Stage::DirectoryLookup { gateway, hardware: hardware.clone() }.action(),
        command(&["getent", "hosts", "10.20.30.254"])
    );
    assert_eq!(
        Stage::NetbiosLookup { gateway, hardware: hardware.clone() }.action(),
        command(&["nmblookup", "-A", "10.20.30.254"])
    );
    assert_eq!(
        Stage::VendorLookup { hardware }.action(),
        fetch("https://api.macvendors.com/aa:bb:cc:dd:ee:ff")
    );
    assert_eq!(Stage::Finished.action(), Action::Finish);
    assert_eq!(
        Stage::Failed { failure: Failure::GatewayNotFound }.action(),
        Action::Abort { failure: Failure::GatewayNotFound }
    );
    assert_eq!(
        Stage::Failed { failure: Failure::HardwareAddressNotFound }.action(),
        Action::Abort { failure: Failure::HardwareAddressNotFound }
    );
}

#[test]
fn stage_advance_exact_steps() {
    let hardware = "aa:bb:cc:dd:ee:ff".to_string();
    assert_eq!(
        Stage::RoutingTable.advance(&written("default via 10.0.0.1 dev eth0\n")),
        Step {
            stage: Stage::Probe { gateway: NetworkAddress(10, 0, 0, 1) },
            line: Some("IP router: 10.0.0.1".to_string())
        }
    );
    assert_eq!(
        Stage::Probe { gateway: ROUTER }.advance(&written("")),
        Step { stage: Stage::NeighborCache { gateway: ROUTER }, line: None }
    );
    assert_eq!(
        Stage::NeighborCache { gateway: ROUTER }
            .advance(&written("192.168.1.1 dev eth0 lladdr aa:bb:cc:dd:ee:ff REACHABLE\n")),
        Step {
            stage: Stage::DirectoryLookup { gateway: ROUTER, hardware: hardware.clone() },
            line: Some("MAC router: aa:bb:cc:dd:ee:ff".to_string())
        }
    );
    assert_eq!(
        Stage::DirectoryLookup { gateway: ROUTER, hardware: hardware.clone() }
            .advance(&written("192.168.1.1 gw.lan\n")),
        Step {
            stage: Stage::VendorLookup { hardware: hardware.clone() },
            line: Some("Hostname router: gw.lan".to_string())
        }
    );
    assert_eq!(
        Stage::DirectoryLookup { gateway: ROUTER, hardware: hardware.clone() }
            .advance(&Outcome::Unavailable),
        Step {
            stage: Stage::NetbiosLookup { gateway: ROUTER, hardware: hardware.clone() },
            line: None
        }
    );
    assert_eq!(
        Stage::NetbiosLookup { gateway: ROUTER, hardware: hardware.clone() }
            .advance(&written("GW <00> - B <ACTIVE>\n")),
        Step {
            stage: Stage::VendorLookup { hardware: hardware.clone() },
            line: Some("Hostname router: GW".to_string())
        }
    );
    assert_eq!(
        Stage::VendorLookup { hardware: hardware.clone() }
            .advance(&Outcome::Responded { status: 200, body: Some("Netgear".to_string()) }),
        Step { stage: Stage::Finished, line: Some("Router vendor: Netgear".to_string()) }
    );
}

#[test]
fn stage_advance_takes_an_outcome_of_another_kind_as_no_outcome() {
    let hardware = "aa:bb:cc:dd:ee:ff".to_string();
    let response = Outcome::Responded {
        status: 200,
        body: Some("default via 10.0.0.1 dev eth0\n".to_string()),
    };
    assert_eq!(
        Stage::RoutingTable.advance(&response),
        Step { stage: Stage::Failed { failure: Failure::GatewayNotFound }, line: None }
    );
    assert_eq!(
        Stage::Probe { gateway: ROUTER }.advance(&response),
        Step { stage: Stage::Failed { failure: Failure::HardwareAddressNotFound }, line: None }
    );
    assert_eq!(
        Stage::VendorLookup { hardware }.advance(&written("TP-Link")),
        Step {
            stage: Stage::Finished,
            line: Some("Unable to determine vendor by MAC".to_string())
        }
    );
}

#[test]
fn stage_advance_stays_at_the_end() {
    for outcome in [
        Outcome::Unavailable,
        written("default via 10.0.0.1 dev eth0\n"),
        Outcome::Responded { status: 200, body: Some("TP-Link".to_string()) },
    ] {
        assert_eq!(Stage::Finished.advance(&outcome), Step { stage: Stage::Finished, line: None });
        for failure in [Failure::GatewayNotFound, Failure::HardwareAddressNotFound] {
            assert_eq!(
                Stage::Failed { failure }.advance(&outcome),
                Step { stage: Stage::Failed { failure }, line: None }
            );
        }
    }
}

#[test]
fn failure_messages() {
    assert_eq!(Failure::GatewayNotFound.message(), "Failed to find the default gateway");
    assert_eq!(Failure::HardwareAddressNotFound.message(), "Failed to get the MAC of the router");
}
