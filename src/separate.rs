use vstd::prelude::*;
use crate::paths::{file_stem, join_path, joined, path_stem};
use crate::pipeline::{fits, prefixed, with_prefix, Event, Invocation, Request, Stage, Step, StepView, RequestView, ToolOutput};
use crate::text::views;

verus! {

/// The files that a separation leaves, one per stem.
pub struct SeparatedFiles {
    pub vocals: String,
    pub no_vocals: String,
    pub drums: String,
    pub bass: String,
    pub other: String,
}

pub struct SeparatedFilesView {
    pub vocals: Seq<char>,
    pub no_vocals: Seq<char>,
    pub drums: Seq<char>,
    pub bass: Seq<char>,
    pub other: Seq<char>,
}

impl View for SeparatedFiles {
    type V = SeparatedFilesView;

    open spec fn view(&self) -> SeparatedFilesView {
        SeparatedFilesView {
            vocals: self.vocals@,
            no_vocals: self.no_vocals@,
            drums: self.drums@,
            bass: self.bass@,
            other: self.other@,
        }
    }
}

pub open spec fn separator_missing() -> Seq<char> {
    "Demucs not installed. Install: pip install demucs"@
}

pub open spec fn invalid_file_path() -> Seq<char> {
    "Invalid file path"@
}

/// `<dir>/<model>/<stem>/<file>`.
pub open spec fn stem_file(dir: Seq<char>, model: Seq<char>, stem: Seq<char>, file: Seq<char>) -> Seq<char> {
    joined(joined(joined(dir, model), stem), file)
}

/// Where the separator writes the stems of a track named `stem`.
pub open spec fn separated_paths(dir: Seq<char>, model: Seq<char>, stem: Seq<char>) -> SeparatedFilesView {
    SeparatedFilesView {
        vocals: stem_file(dir, model, stem, "vocals.wav"@),
        no_vocals: stem_file(dir, model, stem, "no_vocals.wav"@),
        drums: stem_file(dir, model, stem, "drums.wav"@),
        bass: stem_file(dir, model, stem, "bass.wav"@),
        other: stem_file(dir, model, stem, "other.wav"@),
    }
}

/// The separator's arguments: the model, the output directory, then the input file.
pub open spec fn separation_args(file: Seq<char>, dir: Seq<char>, model: Seq<char>) -> Seq<Seq<char>> {
    seq!["-n"@, model, "-o"@, dir, file]
}

/// The paths of the five stems of a track named `stem`, separated by `model` into `output_dir`.
pub fn separated_files(output_dir: &str, model: &str, stem: &str) -> (r: SeparatedFiles)
    ensures
        r@ == separated_paths(output_dir@, model@, stem@),
{
    let by_model = join_path(output_dir, model);
    let base = join_path(by_model.as_str(), stem);
    SeparatedFiles {
        vocals: join_path(base.as_str(), "vocals.wav"),
        no_vocals: join_path(base.as_str(), "no_vocals.wav"),
        drums: join_path(base.as_str(), "drums.wav"),
        bass: join_path(base.as_str(), "bass.wav"),
        other: join_path(base.as_str(), "other.wav"),
    }
}

/// The invocation that separates `file_path` with `model` into `output_dir`.
pub fn separation_invocation(file_path: &str, output_dir: &str, model: &str) -> (r: Invocation)
    ensures
        r@ == ("demucs"@, separation_args(file_path@, output_dir@, model@)),
{
    let mut args: Vec<String> = Vec::new();
    args.push(String::from_str("-n"));
    args.push(String::from_str(model));
    args.push(String::from_str("-o"));
    args.push(String::from_str(output_dir));
    args.push(String::from_str(file_path));
    assert(views(args@) =~= separation_args(file_path@, output_dir@, model@));
    Invocation { program: String::from_str("demucs"), args }
}

/// The outcome of a separation whose process ran to its end, for a track named `stem`.
pub open spec fn separation_outcome(
    dir: Seq<char>,
    model: Seq<char>,
    stem: Seq<char>,
    out: ToolOutput,
) -> StepView<SeparatedFilesView> {
    if out.success {
        StepView::Succeeded(separated_paths(dir, model, stem))
    } else {
        StepView::Failed(prefixed("Demucs failed: ", out.stderr@))
    }
}

/// The stem paths, or the error, for a separation that ran to its end.
pub fn separation_result(output_dir: &str, model: &str, stem: &str, out: &ToolOutput) -> (r: Step<SeparatedFiles>)
    ensures
        r@ == separation_outcome(output_dir@, model@, stem@, *out),
{
    if out.success {
        Step::Done(Ok(separated_files(output_dir, model, stem)))
    } else {
        Step::Done(Err(with_prefix("Demucs failed: ", out.stderr.as_str())))
    }
}

/// A separation of one audio file with one model, driven one event at a time.
pub struct SeparationJob {
    pub file_path: String,
    pub output_dir: String,
    pub model: String,
    pub stage: Stage,
}

/// The stage and step that follow `ev` for a separation at `job.stage`.
pub open spec fn separation_next(job: SeparationJob, ev: Event) -> (Stage, StepView<SeparatedFilesView>) {
    match ev {
        Event::Probed(spawned) => if spawned {
            (Stage::CreatingDir, StepView::Next(RequestView::CreateDir(job.output_dir@)))
        } else {
            (Stage::Over, StepView::Failed(separator_missing()))
        },
        Event::DirCreated(Err(e)) => (
            Stage::Over,
            StepView::Failed(prefixed("Failed to create directory: ", e@)),
        ),
        Event::DirCreated(Ok(())) => match path_stem(job.file_path@) {
            None => (Stage::Over, StepView::Failed(invalid_file_path())),
            Some(_) => {
                let a = separation_args(job.file_path@, job.output_dir@, job.model@);
                (Stage::Running, StepView::Next(RequestView::Run("demucs"@, a)))
            },
        },
        Event::Ran(Err(e)) => (
            Stage::Over,
            StepView::Failed(prefixed("Demucs execution failed: ", e@)),
        ),
        Event::Ran(Ok(out)) => match path_stem(job.file_path@) {
            None => (Stage::Over, StepView::Failed(invalid_file_path())),
            Some(stem) => (
                Stage::Over,
                separation_outcome(job.output_dir@, job.model@, stem, out),
            ),
        },
    }
}

impl SeparationJob {
    /// A separation that starts by probing for the separator.
    pub fn new(file_path: String, output_dir: String, model: String) -> (r: (SeparationJob, Step<SeparatedFiles>))
        ensures
            r.0.file_path == file_path,
            r.0.output_dir == output_dir,
            r.0.model == model,
            r.0.stage == Stage::Probing,
            r.1@ == StepView::<SeparatedFilesView>::Next(
                RequestView::Probe("demucs"@, seq!["--help"@]),
            ),
    {
        let mut args: Vec<String> = Vec::new();
        args.push(String::from_str("--help"));
        assert(views(args@) =~= seq!["--help"@]);
        let probe = Invocation { program: String::from_str("demucs"), args };
        (
            SeparationJob { file_path, output_dir, model, stage: Stage::Probing },
            Step::Next(Request::Probe(probe)),
        )
    }

    /// Takes the runner's report on the last request and says what comes next.
    pub fn step(&mut self, ev: Event) -> (r: Step<SeparatedFiles>)
        requires
            fits(old(self).stage, ev),
        ensures
            final(self).file_path == old(self).file_path,
            final(self).output_dir == old(self).output_dir,
            final(self).model == old(self).model,
            (final(self).stage, r@) == separation_next(*old(self), ev),
    {
        match ev {
            Event::Probed(spawned) => {
                if spawned {
                    self.stage = Stage::CreatingDir;
                    Step::Next(Request::CreateDir(self.output_dir.clone()))
                } else {
                    self.stage = Stage::Over;
                    Step::Done(
                        Err(String::from_str("Demucs not installed. Install: pip install demucs")),
                    )
                }
            },
            Event::DirCreated(Err(e)) => {
                self.stage = Stage::Over;
                Step::Done(Err(with_prefix("Failed to create directory: ", e.as_str())))
            },
            Event::DirCreated(Ok(())) => {
                match file_stem(self.file_path.as_str()) {
                    None => {
                        self.stage = Stage::Over;
                        Step::Done(Err(String::from_str("Invalid file path")))
                    },
                    Some(_) => {
                        self.stage = Stage::Running;
                        Step::Next(
                            Request::Run(
                                separation_invocation(
                                    self.file_path.as_str(),
                                    self.output_dir.as_str(),
                                    self.model.as_str(),
                                ),
                            ),
                        )
                    },
                }
            },
            Event::Ran(Err(e)) => {
                self.stage = Stage::Over;
                Step::Done(Err(with_prefix("Demucs execution failed: ", e.as_str())))
            },
            Event::Ran(Ok(out)) => {
                self.stage = Stage::Over;
                match file_stem(self.file_path.as_str()) {
                    None => Step::Done(Err(String::from_str("Invalid file path"))),
                    Some(stem) => separation_result(
                        self.output_dir.as_str(),
                        self.model.as_str(),
                        stem.as_str(),
                        &out,
                    ),
                }
            },
        }
    }
}

/// A separation whose separator cannot be started ends at once with the
/// "not installed" error, and takes no further event.
pub proof fn lemma_missing_separator(job: SeparationJob)
    ensures
        separation_next(job, Event::Probed(false)) == (
            Stage::Over,
            StepView::<SeparatedFilesView>::Failed(separator_missing()),
        ),
        forall|ev: Event| !fits(Stage::Over, ev),
{
}

/// A file path without a file name ends the separation with
/// "Invalid file path", whatever the separator would report.
pub proof fn lemma_unnamed_file_fails(job: SeparationJob, out: ToolOutput)
    requires
        path_stem(job.file_path@) is None,
    ensures
        separation_next(job, Event::DirCreated(Ok(()))) == (
            Stage::Over,
            StepView::<SeparatedFilesView>::Failed(invalid_file_path()),
        ),
        separation_next(job, Event::Ran(Ok(out))) == (
            Stage::Over,
            StepView::<SeparatedFilesView>::Failed(invalid_file_path()),
        ),
{
}

} // verus!
