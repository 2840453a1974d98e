//! The ingestion pipeline as an explicit state machine. Each dataset is
//! driven through fetch, decompress, header read, and bulk load, strictly in
//! order and fail-fast: the first failing stage parks the machine in the
//! failed stage, which is absorbing, so no statement ever reaches the store
//! for the failing dataset or any later one, and the working directory is
//! only removed after every dataset has loaded.
//!
//! The machine decides; it performs no I/O itself. `step` consumes the
//! outcome of the previous action as an [`Event`] and returns the next
//! [`Action`] for the caller to perform. Every path and table identifier an
//! action carries is derived here from the configuration, so the fetcher, the
//! decompressor and the store client always agree on the same names.

use vstd::prelude::*;
use crate::naming::{
    decompressed_path, decompressed_path_spec, download_file_name, download_name_spec,
    joined_path, local_path, table_name_for, table_name_spec,
};
use crate::ddl::{copy_statement, copy_statement_spec, ddl_statements, get_create_table_query};
use crate::schema::infer_columns;
use crate::text::split_on;
use crate::report::{summary_of, summary_spec};

verus! {

/// The fixed configuration of one run: the ordered dataset locators, the
/// working directory, and the opaque store connection string (passed through
/// unexamined).
pub struct Config {
    pub urls: Vec<String>,
    pub work_dir: String,
    pub connection: String,
}

impl Config {
    /// A run needs at least one dataset locator.
    pub open spec fn wf(&self) -> bool {
        self.urls@.len() >= 1
    }
}

/// Where the machine stands. The stages between `Fetching` and `Reporting`
/// concern the current dataset; `Cleaning` runs once after the last dataset.
#[derive(Clone, Copy, Debug, PartialEq, Eq, Structural)]
pub enum Stage {
    Ready,
    Preparing,
    Fetching,
    Decompressing,
    Reading,
    Loading,
    Reporting,
    Cleaning,
    Done,
    Failed,
}

/// The outcome of the previously requested action, reported by the caller.
pub enum Event {
    /// Start the run.
    Begin,
    /// The previous action succeeded and carries no data.
    Proceed,
    /// The first line of the decompressed file, or `None` when the file was
    /// empty.
    HeaderLine(Option<String>),
    /// The store client's textual response to a successful load.
    StoreOutput(String),
    /// The previous action failed.
    Failure,
}

/// What the caller must do next.
pub enum Action {
    /// Create the directory if absent; succeed when it already exists.
    EnsureDir { dir: String },
    /// Retrieve `url` and write the whole response body to `dest`,
    /// overwriting if present.
    Fetch { url: String, dest: String },
    /// Decompress the file in place, forcibly, the output replacing the
    /// compression suffix.
    Decompress { path: String },
    /// Read the first line of the file, `None` when there is none.
    ReadFirstLine { path: String },
    /// Deliver the provisioning statements and the bulk-import statement, in
    /// that order, in one invocation of the store client.
    RunStore { connection: String, ddl: String, copy: String },
    /// Report one dataset's success: its table identifier and load summary.
    Emit { table: String, summary: String },
    /// Remove the directory recursively.
    RemoveDir { dir: String },
    /// The run is over; `ok` tells whether every dataset loaded.
    Stop { ok: bool },
}

/// The local path a fetched dataset is written to.
pub open spec fn fetched_path_of(cfg: Config, i: int) -> Seq<char> {
    joined_path(cfg.work_dir@, download_name_spec(cfg.urls@[i]@))
}

/// The path of the decompressed dataset file.
pub open spec fn data_path_of(cfg: Config, i: int) -> Seq<char> {
    decompressed_path_spec(fetched_path_of(cfg, i))
}

/// The table identifier a dataset loads into.
pub open spec fn table_of(cfg: Config, i: int) -> Seq<char> {
    table_name_spec(data_path_of(cfg, i))
}

/// The stage after handling `ev` in `stage`, with `idx` the current dataset
/// position and `n` the dataset count. Any event that does not fit the stage
/// is a failure; the done and failed stages are absorbing.
pub open spec fn next_stage(stage: Stage, idx: int, n: int, ev: Event) -> Stage {
    match (stage, ev) {
        (Stage::Ready, Event::Begin) => Stage::Preparing,
        (Stage::Preparing, Event::Proceed) => Stage::Fetching,
        (Stage::Fetching, Event::Proceed) => Stage::Decompressing,
        (Stage::Decompressing, Event::Proceed) => Stage::Reading,
        (Stage::Reading, Event::HeaderLine(line)) => if line is Some {
            Stage::Loading
        } else {
            Stage::Failed
        },
        (Stage::Loading, Event::StoreOutput(_)) => Stage::Reporting,
        (Stage::Reporting, Event::Proceed) => if idx + 1 < n {
            Stage::Fetching
        } else {
            Stage::Cleaning
        },
        (Stage::Cleaning, Event::Proceed) => Stage::Done,
        (Stage::Done, _) => Stage::Done,
        (_, _) => Stage::Failed,
    }
}

/// The dataset position after handling `ev`: it advances only when one
/// dataset's success has been reported.
pub open spec fn next_idx(stage: Stage, idx: int, ev: Event) -> int {
    if stage is Reporting && ev is Proceed {
        idx + 1
    } else {
        idx
    }
}

/// The pipeline orchestrator's state.
pub struct Pipeline {
    pub cfg: Config,
    pub idx: usize,
    pub stage: Stage,
}

impl Pipeline {
    pub open spec fn wf(&self) -> bool {
        &&& self.cfg.wf()
        &&& self.idx <= self.cfg.urls@.len()
        &&& ((self.stage is Ready || self.stage is Preparing) ==> self.idx == 0)
        &&& ((self.stage is Fetching || self.stage is Decompressing || self.stage is Reading
            || self.stage is Loading || self.stage is Reporting) ==> self.idx
            < self.cfg.urls@.len())
    }

    pub fn new(cfg: Config) -> (p: Pipeline)
        requires
            cfg.wf(),
        ensures
            p.wf(),
            p.stage is Ready,
            p.idx == 0,
            p.cfg == cfg,
    {
        Pipeline { cfg, idx: 0, stage: Stage::Ready }
    }

    /// Handles the outcome of the previous action and returns the next one.
    ///
    /// Besides pinning the successor state to [`next_stage`] and
    /// [`next_idx`], the contract states the fail-fast laws: a store action
    /// is returned only when a header line has just arrived for the current
    /// dataset, the working directory is removed only once the last dataset's
    /// success has been reported, a failure event parks the machine in the
    /// failed stage, and the failed stage only ever answers with a failed
    /// stop.
    pub fn step(&mut self, ev: Event) -> (a: Action)
        requires
            old(self).wf(),
        ensures
            final(self).wf(),
            final(self).cfg == old(self).cfg,
            final(self).stage == next_stage(
                old(self).stage,
                old(self).idx as int,
                old(self).cfg.urls@.len() as int,
                ev,
            ),
            final(self).idx as int == next_idx(old(self).stage, old(self).idx as int, ev),
            (old(self).stage is Ready && ev is Begin) ==> (a matches Action::EnsureDir { dir }
                && dir@ == old(self).cfg.work_dir@),
            (old(self).stage is Preparing && ev is Proceed) ==> (a matches Action::Fetch {
                url,
                dest,
            } && url@ == old(self).cfg.urls@[old(self).idx as int]@ && dest@ == fetched_path_of(
                old(self).cfg,
                old(self).idx as int,
            )),
            (old(self).stage is Fetching && ev is Proceed) ==> (a matches Action::Decompress {
                path,
            } && path@ == fetched_path_of(old(self).cfg, old(self).idx as int)),
            (old(self).stage is Decompressing && ev is Proceed) ==> (a
                matches Action::ReadFirstLine { path } && path@ == data_path_of(
                old(self).cfg,
                old(self).idx as int,
            )),
            old(self).stage is Reading ==> (ev matches Event::HeaderLine(Some(line)) ==> (a
                matches Action::RunStore { connection, ddl, copy } && connection@ == old(
                self,
            ).cfg.connection@ && ddl@ == ddl_statements(
                table_of(old(self).cfg, old(self).idx as int),
                split_on(line@, '\t'),
            ) && copy@ == copy_statement_spec(
                table_of(old(self).cfg, old(self).idx as int),
                data_path_of(old(self).cfg, old(self).idx as int),
            ))),
            old(self).stage is Loading ==> (ev matches Event::StoreOutput(out) ==> (a
                matches Action::Emit { table, summary } && table@ == table_of(
                old(self).cfg,
                old(self).idx as int,
            ) && summary@ == summary_spec(out@))),
            (old(self).stage is Reporting && ev is Proceed && old(self).idx + 1 < old(
                self,
            ).cfg.urls@.len()) ==> (a matches Action::Fetch { url, dest } && url@ == old(
                self,
            ).cfg.urls@[old(self).idx + 1]@ && dest@ == fetched_path_of(
                old(self).cfg,
                old(self).idx + 1,
            )),
            (old(self).stage is Reporting && ev is Proceed && old(self).idx + 1 == old(
                self,
            ).cfg.urls@.len()) ==> (a matches Action::RemoveDir { dir } && dir@ == old(
                self,
            ).cfg.work_dir@),
            (old(self).stage is Cleaning && ev is Proceed) ==> (a matches Action::Stop { ok }
                && ok),
            a is RunStore ==> (old(self).stage is Reading && (ev matches Event::HeaderLine(
                Some(_),
            ))),
            a is RemoveDir ==> (old(self).stage is Reporting && ev is Proceed && old(self).idx
                + 1 == old(self).cfg.urls@.len()),
            (ev is Failure && !(old(self).stage is Done)) ==> final(self).stage is Failed,
            final(self).stage is Failed ==> (a matches Action::Stop { ok } && !ok),
            old(self).stage is Done ==> (a matches Action::Stop { ok } && ok),
    {
        match self.stage {
            Stage::Ready => match ev {
                Event::Begin => {
                    self.stage = Stage::Preparing;
                    Action::EnsureDir { dir: self.cfg.work_dir.clone() }
                },
                _ => self.fail(),
            },
            Stage::Preparing => match ev {
                Event::Proceed => {
                    let url = self.cfg.urls[self.idx].clone();
                    let name = download_file_name(url.as_str());
                    let dest = local_path(self.cfg.work_dir.as_str(), name.as_str());
                    self.stage = Stage::Fetching;
                    Action::Fetch { url, dest }
                },
                _ => self.fail(),
            },
            Stage::Fetching => match ev {
                Event::Proceed => {
                    let name = download_file_name(self.cfg.urls[self.idx].as_str());
                    let path = local_path(self.cfg.work_dir.as_str(), name.as_str());
                    self.stage = Stage::Decompressing;
                    Action::Decompress { path }
                },
                _ => self.fail(),
            },
            Stage::Decompressing => match ev {
                Event::Proceed => {
                    let name = download_file_name(self.cfg.urls[self.idx].as_str());
                    let fetched = local_path(self.cfg.work_dir.as_str(), name.as_str());
                    let path = decompressed_path(fetched.as_str());
                    self.stage = Stage::Reading;
                    Action::ReadFirstLine { path }
                },
                _ => self.fail(),
            },
            Stage::Reading => match ev {
                Event::HeaderLine(line) => {
                    let header: Option<&str> = match &line {
                        Option::Some(l) => Option::Some(l.as_str()),
                        Option::None => Option::None,
                    };
                    match infer_columns(header) {
                        Result::Ok(cols) => {
                            let name = download_file_name(self.cfg.urls[self.idx].as_str());
                            let fetched = local_path(self.cfg.work_dir.as_str(), name.as_str());
                            let data = decompressed_path(fetched.as_str());
                            let table = table_name_for(data.as_str());
                            let ddl = get_create_table_query(table.as_str(), &cols);
                            let copy = copy_statement(table.as_str(), data.as_str());
                            self.stage = Stage::Loading;
                            Action::RunStore {
                                connection: self.cfg.connection.clone(),
                                ddl,
                                copy,
                            }
                        },
                        Result::Err(_) => self.fail(),
                    }
                },
                _ => self.fail(),
            },
            Stage::Loading => match ev {
                Event::StoreOutput(out) => {
                    let name = download_file_name(self.cfg.urls[self.idx].as_str());
                    let fetched = local_path(self.cfg.work_dir.as_str(), name.as_str());
                    let data = decompressed_path(fetched.as_str());
                    let table = table_name_for(data.as_str());
                    let summary = summary_of(out.as_str());
                    self.stage = Stage::Reporting;
                    Action::Emit { table, summary }
                },
                _ => self.fail(),
            },
            Stage::Reporting => match ev {
                Event::Proceed => {
                    let n = self.cfg.urls.len();
                    proof {
                        assert(self.idx < n);
                    }
                    self.idx += 1;
                    if self.idx < self.cfg.urls.len() {
                        let url = self.cfg.urls[self.idx].clone();
                        let name = download_file_name(url.as_str());
                        let dest = local_path(self.cfg.work_dir.as_str(), name.as_str());
                        self.stage = Stage::Fetching;
                        Action::Fetch { url, dest }
                    } else {
                        self.stage = Stage::Cleaning;
                        Action::RemoveDir { dir: self.cfg.work_dir.clone() }
                    }
                },
                _ => self.fail(),
            },
            Stage::Cleaning => match ev {
                Event::Proceed => {
                    self.stage = Stage::Done;
                    Action::Stop { ok: true }
                },
                _ => self.fail(),
            },
            Stage::Done => Action::Stop { ok: true },
            Stage::Failed => Action::Stop { ok: false },
        }
    }

    /// Records a stage failure: the machine never leaves the failed stage.
    fn fail(&mut self) -> (a: Action)
        ensures
            final(self).cfg == old(self).cfg,
            final(self).idx == old(self).idx,
            final(self).stage is Failed,
            a matches Action::Stop { ok } && !ok,
    {
        self.stage = Stage::Failed;
        Action::Stop { ok: false }
    }
}

/// Fail-fast: a failure event in any stage short of completion parks the
/// pipeline in the failed stage. In particular, when the fetcher or the
/// decompressor fails for a dataset, the machine is failed from then on.
pub proof fn lemma_failure_event_fails(stage: Stage, idx: int, n: int)
    requires
        !(stage is Done),
    ensures
        next_stage(stage, idx, n, Event::Failure) is Failed,
{
}

/// The failed stage is absorbing: whatever event arrives, the machine stays
/// failed. Together with the contract of [`Pipeline::step`] — a store action
/// only out of the reading stage, directory removal only out of the last
/// report — this gives the run's fail-fast guarantee: once any stage of
/// dataset `n` has failed, no provisioning or load statement is issued for
/// dataset `n` or any later one, and the working directory is never removed.
pub proof fn lemma_failed_is_absorbing(stage: Stage, idx: int, n: int, ev: Event)
    requires
        stage is Failed,
    ensures
        next_stage(stage, idx, n, ev) is Failed,
{
}

} // verus!
