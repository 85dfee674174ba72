use cartesi_rollups::cli;
use cartesi_rollups::commands;
use cartesi_rollups::dapp::RollupsBuilderError;
use cartesi_rollups::services::digest_matches;
use cartesi_rollups::services::Cargo;
use cartesi_rollups::services::CartesiMachine;
use cartesi_rollups::services::DependenciesDownloader;
use cartesi_rollups::services::FileSystem;
use cartesi_rollups::services::ResourceCreator;
use cartesi_rollups::tester::Notice;
use cartesi_rollups::tester::Report;
use cartesi_rollups::tester::RequestFile;
use cartesi_rollups::tester::RequestWriter;
use cartesi_rollups::tester::TestMachineIo;
use std::cell::RefCell;

#[derive(Default)]
struct Recorder {
    calls: RefCell<Vec<String>>,
}

impl Recorder {
    fn record(&self, call: &str) {
        self.calls.borrow_mut().push(call.to_owned());
    }
}

impl Cargo for Recorder {
    fn create_new_binary_source(&self, target_bin: &str) {
        self.record(&format!("cargo new {}", target_bin));
    }

    fn build_binary(&self) {
        self.record("cargo build");
    }

    fn package_name(&self) -> String {
        self.record("cargo package_name");
        "echo".to_owned()
    }

    fn target_dir(&self) -> String {
        "/target/riscv64ima-cartesi-linux-gnu/release".to_owned()
    }
}

impl FileSystem for Recorder {
    fn create(&self, files: &Vec<String>, size: Option<usize>, output: &str) {
        self.record(&format!("fs create {:?} {:?} {}", files, size, output));
    }

    fn create_dir_all(&self, path: &str) {
        self.record(&format!("fs mkdir {}", path));
    }
}

impl DependenciesDownloader for Recorder {
    fn download_if_not_present_and_verify(&self, target_dir: &str) {
        self.record(&format!("deps {}", target_dir));
    }
}

impl ResourceCreator for Recorder {
    fn create(&self, target_dir: &str) {
        self.record(&format!("res {}", target_dir));
    }
}

impl CartesiMachine for Recorder {
    fn build(&self, target_binary: &str, dapp_fs: &str) {
        self.record(&format!("machine build {} {}", target_binary, dapp_fs));
    }

    fn run(&self, target_binary: &str, rootfs: &str, ram_image: &str, rom_image: &str, dapp_fs: &str) {
        self.record(&format!(
            "machine run {} {} {} {} {}",
            target_binary, rootfs, ram_image, rom_image, dapp_fs
        ));
    }
}

#[test]
fn create_fs_builds_then_images_the_package_binary() {
    let recorder = Recorder::default();
    commands::CreateFsCommand::handle(None, "dapp.ext2", &recorder, &recorder).unwrap();

    let calls = recorder.calls.borrow();
    assert_eq!(
        *calls,
        vec![
            "cargo build".to_owned(),
            "cargo package_name".to_owned(),
            "fs mkdir /target/riscv64ima-cartesi-linux-gnu/release/cartesi".to_owned(),
            "fs create [\"/target/riscv64ima-cartesi-linux-gnu/release/echo\"] None \
             /target/riscv64ima-cartesi-linux-gnu/release/cartesi/dapp.ext2"
                .to_owned(),
        ]
    );
}

#[test]
fn create_fs_prefers_the_explicit_binary_name() {
    let recorder = Recorder::default();
    commands::CreateFsCommand::handle(Some("mydapp".to_owned()), "out.ext2", &recorder, &recorder)
        .unwrap();

    let calls = recorder.calls.borrow();
    assert!(!calls.contains(&"cargo package_name".to_owned()));
    assert!(calls
        .iter()
        .any(|c| c.contains("/target/riscv64ima-cartesi-linux-gnu/release/mydapp")));
}

#[test]
fn create_machine_downloads_dependencies_and_stores_the_machine() {
    let recorder = Recorder::default();
    commands::CreateMachineCommand::handle(
        None,
        "dapp.ext2",
        &recorder,
        &recorder,
        &recorder,
        &recorder,
    )
    .unwrap();

    let calls = recorder.calls.borrow();
    assert!(calls.contains(&"deps /target/riscv64ima-cartesi-linux-gnu/release/cartesi".to_owned()));
    assert!(calls.contains(
        &"machine build echo /target/riscv64ima-cartesi-linux-gnu/release/cartesi/dapp.ext2"
            .to_owned()
    ));
}

#[test]
fn run_command_runs_the_machine_with_its_images() {
    let recorder = Recorder::default();
    commands::RunCommand::handle(None, "dapp.ext2", &recorder, &recorder, &recorder, &recorder)
        .unwrap();

    let calls = recorder.calls.borrow();
    let run_call = calls.iter().find(|c| c.starts_with("machine run")).unwrap();
    assert!(run_call.contains("rootfs.ext2"));
    assert!(run_call.contains("linux-5.5.19-ctsi-6.bin"));
    assert!(run_call.contains("rom.bin"));
}

#[test]
fn new_command_creates_the_crate_and_its_resources() {
    let recorder = Recorder::default();
    commands::NewCommand::handle("fresh", &recorder, &recorder).unwrap();

    let calls = recorder.calls.borrow();
    assert_eq!(*calls, vec!["cargo new fresh".to_owned(), "res fresh".to_owned()]);
}

#[test]
fn cli_commands_delegate_to_their_handlers() {
    let recorder = Recorder::default();
    cli::NewCommand { target_dir: "fresh".to_owned() }.handle(&recorder, &recorder).unwrap();
    cli::BuildCommand.handle(&recorder).unwrap();
    cli::CreateFsCommand { target_bin: None, output_fs: "dapp.ext2".to_owned() }
        .handle(&recorder, &recorder)
        .unwrap();

    let calls = recorder.calls.borrow();
    assert!(calls.contains(&"cargo new fresh".to_owned()));
    assert!(calls.iter().filter(|c| *c == "cargo build").count() >= 2);
}

#[test]
fn missing_parameter_error_names_its_remedies() {
    let error = RollupsBuilderError::missing_parameter(
        "server_address",
        "ROLLUP_HTTP_SERVER_URL",
        "set_server_url",
    );
    let RollupsBuilderError::MissingParameter { param, env_var, method_name } = error;
    assert_eq!(param, "server_address");
    assert_eq!(env_var, "ROLLUP_HTTP_SERVER_URL");
    assert_eq!(method_name, "set_server_url");
}

#[test]
fn notice_builder_sets_each_index() {
    let notice = Notice::new("payload").with_epoch_index(1).with_input_index(2).with_notice_index(3);
    assert_eq!(
        notice,
        Notice { epoch_index: 1, input_index: 2, notice_index: 3, payload: "payload".to_owned() }
    );
}

#[test]
fn report_builder_sets_its_index() {
    let report = Report::new("data").with_report_index(4);
    assert_eq!(report, Report { report_index: 4, payload: "data".to_owned() });
}

#[test]
fn writing_an_input_plans_its_metadata_and_payload_files() {
    let machine = TestMachineIo::new("echo".to_owned(), "/target/cartesi".to_owned());
    let machine = machine.write_input("0x010203");

    assert_eq!(machine.input_index, 1);
    assert_eq!(machine.planned.len(), 2);
    assert_eq!(
        machine.planned[0],
        RequestFile::InputMetadata {
            msg_sender: "0xdeadbeefdeadbeefdeadbeefdeadbeefdeadbeef".to_owned(),
            epoch_index: 0,
            input_index: 1,
            block_number: 0,
            timestamp: 0,
        }
    );
    assert_eq!(
        machine.planned[1],
        RequestFile::Input { epoch_index: 0, input_index: 1, payload: "0x010203".to_owned() }
    );
}

#[test]
fn writing_a_query_plans_its_file_without_advancing_indices() {
    let machine = TestMachineIo::new("echo".to_owned(), "/target/cartesi".to_owned())
        .write_input("0x01")
        .write_query("0x02");

    assert_eq!(machine.input_index, 1);
    assert_eq!(machine.planned.len(), 3);
    assert_eq!(machine.planned[2], RequestFile::Query { payload: "0x02".to_owned() });
}

#[test]
fn request_writer_builds_the_request_files() {
    assert_eq!(
        RequestWriter::write_input_payload("0xff", 2, 7),
        RequestFile::Input { epoch_index: 2, input_index: 7, payload: "0xff".to_owned() }
    );
    assert_eq!(
        RequestWriter::write_query_payload("0x"),
        RequestFile::Query { payload: "0x".to_owned() }
    );
    assert_eq!(TestMachineIo::target_name(), "riscv64ima-cartesi-linux-gnu");
}

#[test]
fn digest_matches_the_pinned_hash_exactly() {
    let expected: [u8; 20] = hex::decode("a9993e364706816aba3e25717850c26c9cd0d89d")
        .unwrap()
        .try_into()
        .unwrap();
    assert!(digest_matches(b"abc", &expected));
    assert!(!digest_matches(b"abd", &expected));
    assert!(!digest_matches(b"", &expected));
}
