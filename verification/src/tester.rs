//! Plan of an integration run against a real machine.
//!
//! The launcher that spawns the machine, encodes the request files and
//! decodes the emitted ranges works with processes and files; what is
//! verified here is the bookkeeping: which request files a test asked
//! for, in which order, under which indices, and the shape of the
//! notices and reports it expects back.

use vstd::prelude::*;

verus! {

/// The sender address every planned input carries.
pub const TEST_MSG_SENDER: &'static str = "0xdeadbeefdeadbeefdeadbeefdeadbeefdeadbeef";

/// A notice decoded from an emitted range, or expected by a test.
#[derive(Debug, Clone, PartialEq, Eq)]
pub struct Notice {
    pub epoch_index: usize,
    pub input_index: usize,
    pub notice_index: usize,
    pub payload: String,
}

impl Notice {
    /// A notice carrying `payload`, all indices zero.
    pub fn new(payload: &str) -> (r: Self)
        ensures
            r.payload@ == payload@,
            r.epoch_index == 0,
            r.input_index == 0,
            r.notice_index == 0,
    {
        Self { epoch_index: 0, input_index: 0, notice_index: 0, payload: payload.to_owned() }
    }

    /// The same notice at `epoch_index`.
    pub fn with_epoch_index(self, epoch_index: usize) -> (r: Self)
        ensures
            r == (Notice { epoch_index, ..self }),
    {
        Self { epoch_index, ..self }
    }

    /// The same notice at `input_index`.
    pub fn with_input_index(self, input_index: usize) -> (r: Self)
        ensures
            r == (Notice { input_index, ..self }),
    {
        Self { input_index, ..self }
    }

    /// The same notice at `notice_index`.
    pub fn with_notice_index(self, notice_index: usize) -> (r: Self)
        ensures
            r == (Notice { notice_index, ..self }),
    {
        Self { notice_index, ..self }
    }
}

/// A report decoded from an emitted range, or expected by a test.
#[derive(Debug, Clone, PartialEq, Eq)]
pub struct Report {
    pub report_index: usize,
    pub payload: String,
}

impl Report {
    /// A report carrying `payload`, index zero.
    pub fn new(payload: &str) -> (r: Self)
        ensures
            r.payload@ == payload@,
            r.report_index == 0,
    {
        Self { report_index: 0, payload: payload.to_owned() }
    }

    /// The same report at `report_index`.
    pub fn with_report_index(self, report_index: usize) -> (r: Self)
        ensures
            r == (Report { report_index, ..self }),
    {
        Self { report_index, ..self }
    }
}

/// A request file the launcher materializes before starting the
/// machine: its variant decides both the encoder used and the file
/// name.
#[derive(Debug, Clone, PartialEq, Eq)]
pub enum RequestFile {
    /// The metadata accompanying one input.
    InputMetadata {
        msg_sender: String,
        epoch_index: usize,
        input_index: usize,
        block_number: usize,
        timestamp: u64,
    },
    /// The payload of one input.
    Input { epoch_index: usize, input_index: usize, payload: String },
    /// The payload of the inspection query.
    Query { payload: String },
}

/// Builds the request files that the launcher encodes and writes.
#[derive(Debug)]
pub struct RequestWriter;

impl RequestWriter {
    /// The payload file of the input at `epoch_index`, `input_index`.
    pub fn write_input_payload(payload: &str, epoch_index: usize, input_index: usize) -> (r:
        RequestFile)
        ensures
            r matches RequestFile::Input { epoch_index: e, input_index: i, payload: p } && e
                == epoch_index && i == input_index && p@ == payload@,
    {
        RequestFile::Input { epoch_index, input_index, payload: payload.to_owned() }
    }

    /// The payload file of the inspection query.
    pub fn write_query_payload(payload: &str) -> (r: RequestFile)
        ensures
            r matches RequestFile::Query { payload: p } && p@ == payload@,
    {
        RequestFile::Query { payload: payload.to_owned() }
    }

    /// The metadata file of the input at `epoch_index`, `input_index`.
    pub fn write_input_metadata(
        msg_sender: &str,
        epoch_index: usize,
        input_index: usize,
        block_number: usize,
        timestamp: u64,
    ) -> (r: RequestFile)
        ensures
            r matches RequestFile::InputMetadata {
                msg_sender: m,
                epoch_index: e,
                input_index: i,
                block_number: b,
                timestamp: t,
            } && m@ == msg_sender@ && e == epoch_index && i == input_index && b == block_number
                && t == timestamp,
    {
        RequestFile::InputMetadata {
            msg_sender: msg_sender.to_owned(),
            epoch_index,
            input_index,
            block_number,
            timestamp,
        }
    }
}

/// Plans an integration run: inputs and queries written before the
/// machine starts, indices tracked as the launcher will use them.
#[derive(Debug)]
pub struct TestMachineIo {
    /// One-based index of an input of an epoch.
    pub input_index: usize,
    /// Zero-based index of an epoch.
    pub epoch_index: usize,
    /// Port of the remote machine.
    pub port: u16,
    /// Name of the dapp binary to run on the machine.
    pub bin_name: String,
    /// Directory where dependencies and build output are placed.
    pub target_dir: String,
    /// The request files planned so far, in issuance order.
    pub planned: Vec<RequestFile>,
}

impl TestMachineIo {
    /// A fresh plan for `bin_name` under `target_dir`, on the default
    /// port, with no inputs yet.
    pub fn new(bin_name: String, target_dir: String) -> (r: Self)
        ensures
            r.input_index == 0,
            r.epoch_index == 0,
            r.port == 8080,
            r.bin_name == bin_name,
            r.target_dir == target_dir,
            r.planned@.len() == 0,
    {
        Self { input_index: 0, epoch_index: 0, port: 8080, bin_name, target_dir, planned: Vec::new() }
    }

    /// Plans one more input carrying `payload`: the input index
    /// advances, and the input's metadata and payload files are
    /// appended to the plan.
    pub fn write_input(self, payload: &str) -> (r: Self)
        requires
            self.input_index < usize::MAX,
        ensures
            r.input_index == self.input_index + 1,
            r.epoch_index == self.epoch_index,
            r.port == self.port,
            r.bin_name == self.bin_name,
            r.target_dir == self.target_dir,
            r.planned@.len() == self.planned@.len() + 2,
            r.planned@.subrange(0, self.planned@.len() as int) == self.planned@,
            r.planned@[self.planned@.len() as int] matches RequestFile::InputMetadata {
                msg_sender: m,
                epoch_index: e,
                input_index: i,
                block_number: b,
                timestamp: t,
            } && m@ == TEST_MSG_SENDER@ && e == 0 && i == self.input_index + 1 && b == 0 && t
                == 0,
            r.planned@.last() matches RequestFile::Input { epoch_index: e, input_index: i, payload: p }
                && e == 0 && i == self.input_index + 1 && p@ == payload@,
    {
        let mut planned = self.planned;
        let input_index = self.input_index + 1;
        let metadata = RequestWriter::write_input_metadata(TEST_MSG_SENDER, 0, input_index, 0, 0);
        let ghost before = planned@;
        planned.push(metadata);
        planned.push(RequestWriter::write_input_payload(payload, 0, input_index));
        proof {
            assert(planned@.subrange(0, before.len() as int) =~= before);
        }
        Self {
            input_index,
            epoch_index: self.epoch_index,
            port: self.port,
            bin_name: self.bin_name,
            target_dir: self.target_dir,
            planned,
        }
    }

    /// Plans the inspection query carrying `payload`: its file is
    /// appended to the plan, the indices stay as they are.
    pub fn write_query(self, payload: &str) -> (r: Self)
        ensures
            r.input_index == self.input_index,
            r.epoch_index == self.epoch_index,
            r.port == self.port,
            r.bin_name == self.bin_name,
            r.target_dir == self.target_dir,
            r.planned@.len() == self.planned@.len() + 1,
            r.planned@.subrange(0, self.planned@.len() as int) == self.planned@,
            r.planned@.last() matches RequestFile::Query { payload: p } && p@ == payload@,
    {
        let mut planned = self.planned;
        let ghost before = planned@;
        planned.push(RequestWriter::write_query_payload(payload));
        proof {
            assert(planned@.subrange(0, before.len() as int) =~= before);
        }
        Self {
            input_index: self.input_index,
            epoch_index: self.epoch_index,
            port: self.port,
            bin_name: self.bin_name,
            target_dir: self.target_dir,
            planned,
        }
    }

    /// The name of the cross-compilation target.
    pub fn target_name() -> (r: &'static str)
        ensures
            r@ == "riscv64ima-cartesi-linux-gnu"@,
    {
        "riscv64ima-cartesi-linux-gnu"
    }
}

} // verus!
