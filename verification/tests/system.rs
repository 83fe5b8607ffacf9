use om_rs::error::{ModelicaSystemError, OMCSessionZMQError, ZmqFailure};
use om_rs::results::BuildModelResults;
use om_rs::session::OMCSessionZMQ;
use om_rs::system::{ModelicaSystem, SimulationAction, SimulationCommand, SimulationEvent};
use std::io::{Error, ErrorKind};
use std::path::Path;

fn session() -> OMCSessionZMQ {
    let env = Some("/usr".to_string());
    match OMCSessionZMQ::new_for(None, env, "ada".to_string(), "r1".to_string()) {
        Ok(session) => session.established(),
        Err(_) => panic!("no session"),
    }
}

fn results(exec_path: &str, xml_file_name: &str) -> BuildModelResults {
    BuildModelResults {
        exec_path: exec_path.to_string(),
        xml_file_name: xml_file_name.to_string(),
    }
}

fn system() -> ModelicaSystem {
    let results = results("/tmp/om/Test", "Test_init.xml");
    match ModelicaSystem::new(&session(), "/home/user/Test.mo", "Test", results) {
        Ok(system) => system,
        Err(_) => panic!("no system"),
    }
}

fn command(result: Result<SimulationCommand, ModelicaSystemError>) -> SimulationCommand {
    match result {
        Ok(command) => command,
        Err(_) => panic!("no command"),
    }
}

fn run(system: &mut ModelicaSystem, file: Option<&str>, flags: Option<&str>) -> Vec<String> {
    command(system.simulate_as(file, flags, true, "id".to_string())).args
}

#[test]
fn a_new_system_knows_its_files() {
    let system = system();
    assert_eq!(system.model_file_path(), "/home/user/Test.mo");
    assert_eq!(system.model_name(), "Test");
    assert_eq!(system.exec_file_path(), "/tmp/om/Test");
    assert_eq!(system.xml_file_path(), "/tmp/om/Test_init.xml");
    assert_eq!(system.result_file_path(), "Test_res.mat");
}

#[test]
fn the_xml_file_lies_in_the_directory_of_the_executable() {
    let paths = [
        "Test", "/Test", "a/Test", "./Test", "../Test", "/a/b/", "/a//b", "a/./b", "a/.", ".",
        "..", "//a", "/a/../b", "a.b/c",
    ];
    for path in paths {
        let expected = Path::new(path).parent().unwrap().join("x.xml");
        match ModelicaSystem::new(&session(), "f", "m", results(path, "x.xml")) {
            Ok(system) => {
                assert_eq!(system.xml_file_path(), expected.to_str().unwrap());
                assert_eq!(system.exec_file_path(), path);
            }
            Err(_) => panic!("no system"),
        }
    }
    match ModelicaSystem::new(&session(), "f", "m", results("/a/b", "/c/x.xml")) {
        Ok(system) => assert_eq!(system.xml_file_path(), "/c/x.xml"),
        Err(_) => panic!("no system"),
    }
}

#[test]
fn an_executable_without_a_directory_is_refused() {
    for path in ["", "/", "//", "/.", "/./", "//."] {
        match ModelicaSystem::new(&session(), "f", "m", results(path, "x.xml")) {
            Err(ModelicaSystemError::ExecParentDirError { exec_path }) => {
                assert_eq!(exec_path, path)
            }
            _ => panic!("a system"),
        }
    }
}

#[test]
fn a_model_file_that_exists_is_loaded() {
    match ModelicaSystem::load_model(&session(), "/home/user/Test.mo", true) {
        Ok((message, _)) => {
            assert_eq!(message.into_vec(), vec!["loadFile(\"/home/user/Test.mo\")"])
        }
        Err(_) => panic!("not loaded"),
    }
    match ModelicaSystem::load_model(&session(), "/no.mo", false) {
        Err(ModelicaSystemError::ModelNotFound { model_path }) => assert_eq!(model_path, "/no.mo"),
        _ => panic!("loaded"),
    }
    let (message, _) = ModelicaSystem::build_model(&session(), "Test");
    assert_eq!(message.into_vec(), vec!["buildModel(Test)"]);
}

#[test]
fn the_error_of_a_session_is_one_of_the_system() {
    let failure = OMCSessionZMQError::ZmqErr(ZmqFailure::NoMessage);
    assert!(matches!(
        ModelicaSystem::session_result::<u8>(Err(failure)),
        Err(ModelicaSystemError::OMCSessionZMQErr(OMCSessionZMQError::ZmqErr(
            ZmqFailure::NoMessage
        )))
    ));
    assert!(matches!(ModelicaSystem::session_result::<u8>(Ok(7)), Ok(7)));
}

#[test]
fn options_flags_and_result_file_become_arguments() {
    let mut system = system();
    system.set_simulation_options(&[("stopTime", "1"), ("stepSize", "0.002")]);
    let args = run(&mut system, Some("res.mat"), Some("-w"));
    assert_eq!(args, vec!["-r=res.mat", "-w", "-override=stopTime=1,stepSize=0.002"]);
    assert_eq!(system.result_file_path(), "res.mat");
}

#[test]
fn a_bare_simulation_has_no_arguments() {
    let mut system = system();
    assert_eq!(run(&mut system, None, None), Vec::<String>::new());
    assert_eq!(system.result_file_path(), "Test_res.mat");
}

#[test]
fn flags_are_split_at_every_space() {
    let mut system = system();
    assert_eq!(run(&mut system, None, Some("-w -lv  LOG")), vec!["-w", "-lv", "", "LOG"]);
    assert_eq!(run(&mut system, None, Some("")), vec![""]);
}

#[test]
fn options_stay_for_later_simulations() {
    let mut system = system();
    system.set_simulation_options(&[("a", "1"), ("b", "2")]);
    assert_eq!(run(&mut system, None, None), vec!["-override=a=1,b=2"]);
    system.set_simulation_options(&[("a", "3")]);
    system.set_simulation_options(&[]);
    assert_eq!(run(&mut system, None, None), vec!["-override=a=3,b=2"]);
}

#[test]
fn the_result_file_stays_for_later_simulations() {
    let mut system = system();
    run(&mut system, Some("a.mat"), None);
    run(&mut system, None, None);
    assert_eq!(system.result_file_path(), "a.mat");
    assert_eq!(run(&mut system, Some("a.mat"), None), run(&mut system, Some("a.mat"), None));
}

#[test]
fn the_log_file_of_a_simulation_carries_its_names() {
    let mut system = system();
    let command = command(system.simulate_as(None, None, true, "id".to_string()));
    assert_eq!(command.log_file_path, "/tmp/openmodelica.ada.port.r1.sim.Test.id.log");
    assert_eq!(command.exec_path, "/tmp/om/Test");
}

#[test]
fn each_simulation_has_a_log_file_of_its_own() {
    let mut system = system();
    let a = command(system.simulate(None, None, true)).log_file_path;
    let b = command(system.simulate(None, None, true)).log_file_path;
    assert_ne!(a, b);
    let front = "/tmp/openmodelica.ada.port.r1.sim.Test.";
    for path in [a, b] {
        assert!(path.starts_with(front));
        assert!(path.ends_with(".log"));
        assert_eq!(path.len(), front.len() + 36 + 4);
    }
}

#[test]
fn options_and_requests_leave_the_session_alone() {
    let mut system = system();
    let log = |s: &mut ModelicaSystem| {
        command(s.simulate_as(None, None, true, "id".to_string())).log_file_path
    };
    let before = log(&mut system);
    system.set_simulation_options(&[("a", "1")]);
    assert_eq!(log(&mut system), before);
    let _ = system.simulate(Some("r.mat"), Some("-w"), true);
    let _ = system.simulate(Some("r.mat"), None, false);
    assert_eq!(log(&mut system), before);
    assert_eq!(system.exec_file_path(), "/tmp/om/Test");
    assert_eq!(system.model_name(), "Test");
}

#[test]
fn a_missing_executable_refuses_the_simulation_and_keeps_the_result_file() {
    let mut system = system();
    match system.simulate(Some("late.mat"), None, false) {
        Err(ModelicaSystemError::SimNotFound { exec_path }) => {
            assert_eq!(exec_path, "/tmp/om/Test")
        }
        _ => panic!("a simulation"),
    }
    assert_eq!(system.result_file_path(), "late.mat");
}

#[test]
fn errors_at_the_start_of_a_simulation_are_told_apart() {
    let mut system = system();
    let command = command(system.simulate_as(None, None, true, "id".to_string()));
    match command.log_file_error(Error::from(ErrorKind::PermissionDenied)) {
        ModelicaSystemError::FailedToCreateSimLogFile { path, source } => {
            assert_eq!(path, command.log_file_path);
            assert_eq!(source.kind(), ErrorKind::PermissionDenied);
        }
        _ => panic!("another error"),
    }
    match command.start_error(Error::from(ErrorKind::NotFound)) {
        ModelicaSystemError::IOError(e) => assert_eq!(e.kind(), ErrorKind::NotFound),
        _ => panic!("another error"),
    }
}

#[test]
fn only_a_simulation_that_ends_by_itself_is_completed() {
    assert!(matches!(SimulationEvent::Cancelled.action(), SimulationAction::Kill));
    assert!(matches!(SimulationEvent::Exited.action(), SimulationAction::NotifyCompleted));
}

#[test]
fn simulation_logs_stand_beside_the_port_file() {
    let session = session();
    let mut system = match ModelicaSystem::new(&session, "f", "Test", results("/tmp/Test", "x")) {
        Ok(system) => system,
        Err(_) => panic!("no system"),
    };
    assert_eq!(session.port_file(), "/tmp/openmodelica.ada.port.r1");
    let expected = format!("{}.sim.Test.1.log", session.port_file());
    system.set_simulation_options(&[("stopTime", "2")]);
    for result_file in [None, Some("r.mat")] {
        let simulation = command(system.simulate_as(result_file, None, true, "1".to_string()));
        assert_eq!(simulation.log_file_path, expected);
    }
}
