use vstd::prelude::*;
use crate::pipeline::{fits, prefixed, with_prefix, Event, Invocation, Request, Stage, Step, StepView, RequestView, ToolOutput};
use crate::source::{source_label, source_of, url_host};
use crate::text::{fields_of, output_fields, views};

verus! {

/// What a download produced.
pub struct AudioInfo {
    pub title: String,
    pub duration: String,
    pub source: String,
    pub file_path: String,
}

pub struct AudioInfoView {
    pub title: Seq<char>,
    pub duration: Seq<char>,
    pub source: Seq<char>,
    pub file_path: Seq<char>,
}

impl View for AudioInfo {
    type V = AudioInfoView;

    open spec fn view(&self) -> AudioInfoView {
        AudioInfoView {
            title: self.title@,
            duration: self.duration@,
            source: self.source@,
            file_path: self.file_path@,
        }
    }
}

pub open spec fn downloader_missing() -> Seq<char> {
    "yt-dlp not installed. Install: pip install yt-dlp"@
}

pub open spec fn download_unparsed() -> Seq<char> {
    "Failed to parse yt-dlp output"@
}

/// Where the downloader is told to write: `<dir>/<title>.<ext>`.
pub open spec fn output_template(dir: Seq<char>) -> Seq<char> {
    dir + "/%(title)s.%(ext)s"@
}

/// The downloader's arguments: audio only, as mp3 at the best quality, into
/// `dir`, printing the final path, the title and the duration in that order.
pub open spec fn download_args(url: Seq<char>, dir: Seq<char>) -> Seq<Seq<char>> {
    seq![
        "-x"@, "--audio-format"@, "mp3"@, "--audio-quality"@, "0"@,
        "-o"@, output_template(dir),
        "--print"@, "after_move:filepath"@,
        "--print"@, "title"@,
        "--print"@, "duration_string"@,
        url,
    ]
}

/// The outcome of a download whose process ran to its end.
pub open spec fn download_outcome(url: Seq<char>, out: ToolOutput) -> StepView<AudioInfoView> {
    let f = fields_of(out.stdout@);
    if !out.success {
        StepView::Failed(prefixed("yt-dlp failed: ", out.stderr@))
    } else if f.len() < 3 {
        StepView::Failed(download_unparsed())
    } else {
        StepView::Succeeded(
            AudioInfoView {
                file_path: f[0],
                title: f[1],
                duration: f[2],
                source: source_label(url_host(url)),
            },
        )
    }
}

/// The invocation that downloads `url` into `output_dir`.
pub fn download_invocation(url: &str, output_dir: &str) -> (r: Invocation)
    ensures
        r@ == ("yt-dlp"@, download_args(url@, output_dir@)),
{
    let mut args: Vec<String> = Vec::new();
    args.push(String::from_str("-x"));
    args.push(String::from_str("--audio-format"));
    args.push(String::from_str("mp3"));
    args.push(String::from_str("--audio-quality"));
    args.push(String::from_str("0"));
    args.push(String::from_str("-o"));
    args.push(String::from_str(output_dir).concat("/%(title)s.%(ext)s"));
    args.push(String::from_str("--print"));
    args.push(String::from_str("after_move:filepath"));
    args.push(String::from_str("--print"));
    args.push(String::from_str("title"));
    args.push(String::from_str("--print"));
    args.push(String::from_str("duration_string"));
    args.push(String::from_str(url));
    assert(views(args@) =~= download_args(url@, output_dir@));
    Invocation { program: String::from_str("yt-dlp"), args }
}

/// The audio record, or the error, for a download of `url` that ran to its end.
pub fn download_result(url: &str, out: &ToolOutput) -> (r: Step<AudioInfo>)
    ensures
        r@ == download_outcome(url@, *out),
{
    if !out.success {
        return Step::Done(Err(with_prefix("yt-dlp failed: ", out.stderr.as_str())));
    }
    let mut f = output_fields(out.stdout.as_str());
    if f.len() < 3 {
        return Step::Done(Err(String::from_str("Failed to parse yt-dlp output")));
    }
    let source = source_of(url);
    f.truncate(3);
    let duration = f.pop().unwrap();
    let title = f.pop().unwrap();
    let file_path = f.pop().unwrap();
    Step::Done(Ok(AudioInfo { title, duration, source, file_path }))
}

/// A download of one URL into one directory, driven one event at a time.
pub struct DownloadJob {
    pub url: String,
    pub output_dir: String,
    pub stage: Stage,
}

/// The stage and step that follow `ev` for a download at `job.stage`.
pub open spec fn download_next(job: DownloadJob, ev: Event) -> (Stage, StepView<AudioInfoView>) {
    match ev {
        Event::Probed(spawned) => if spawned {
            (Stage::CreatingDir, StepView::Next(RequestView::CreateDir(job.output_dir@)))
        } else {
            (Stage::Over, StepView::Failed(downloader_missing()))
        },
        Event::DirCreated(Err(e)) => (
            Stage::Over,
            StepView::Failed(prefixed("Failed to create directory: ", e@)),
        ),
        Event::DirCreated(Ok(())) => {
            let a = download_args(job.url@, job.output_dir@);
            (Stage::Running, StepView::Next(RequestView::Run("yt-dlp"@, a)))
        },
        Event::Ran(Err(e)) => (
            Stage::Over,
            StepView::Failed(prefixed("yt-dlp execution failed: ", e@)),
        ),
        Event::Ran(Ok(out)) => (Stage::Over, download_outcome(job.url@, out)),
    }
}

impl DownloadJob {
    /// A download that starts by probing for the downloader.
    pub fn new(url: String, output_dir: String) -> (r: (DownloadJob, Step<AudioInfo>))
        ensures
            r.0.url == url,
            r.0.output_dir == output_dir,
            r.0.stage == Stage::Probing,
            r.1@ == StepView::<AudioInfoView>::Next(
                RequestView::Probe("yt-dlp"@, seq!["--version"@]),
            ),
    {
        let mut args: Vec<String> = Vec::new();
        args.push(String::from_str("--version"));
        assert(views(args@) =~= seq!["--version"@]);
        let probe = Invocation { program: String::from_str("yt-dlp"), args };
        (DownloadJob { url, output_dir, stage: Stage::Probing }, Step::Next(Request::Probe(probe)))
    }

    /// Takes the runner's report on the last request and says what comes next.
    pub fn step(&mut self, ev: Event) -> (r: Step<AudioInfo>)
        requires
            fits(old(self).stage, ev),
        ensures
            final(self).url == old(self).url,
            final(self).output_dir == old(self).output_dir,
            (final(self).stage, r@) == download_next(*old(self), ev),
    {
        match ev {
            Event::Probed(spawned) => {
                if spawned {
                    self.stage = Stage::CreatingDir;
                    Step::Next(Request::CreateDir(self.output_dir.clone()))
                } else {
                    self.stage = Stage::Over;
                    Step::Done(
                        Err(String::from_str("yt-dlp not installed. Install: pip install yt-dlp")),
                    )
                }
            },
            Event::DirCreated(Err(e)) => {
                self.stage = Stage::Over;
                Step::Done(Err(with_prefix("Failed to create directory: ", e.as_str())))
            },
            Event::DirCreated(Ok(())) => {
                self.stage = Stage::Running;
                Step::Next(Request::Run(download_invocation(self.url.as_str(), self.output_dir.as_str())))
            },
            Event::Ran(Err(e)) => {
                self.stage = Stage::Over;
                Step::Done(Err(with_prefix("yt-dlp execution failed: ", e.as_str())))
            },
            Event::Ran(Ok(out)) => {
                self.stage = Stage::Over;
                download_result(self.url.as_str(), &out)
            },
        }
    }
}

/// A download whose downloader cannot be started ends at once with the
/// "not installed" error, and takes no further event.
pub proof fn lemma_missing_downloader(job: DownloadJob)
    ensures
        download_next(job, Event::Probed(false)) == (
            Stage::Over,
            StepView::<AudioInfoView>::Failed(downloader_missing()),
        ),
        forall|ev: Event| !fits(Stage::Over, ev),
{
}

/// Output with fewer than three non-blank lines never makes a record: after
/// a clean exit it is the parse error, after a failed one the tool's error.
pub proof fn lemma_short_output_fails(url: Seq<char>, out: ToolOutput)
    requires
        fields_of(out.stdout@).len() < 3,
    ensures
        download_outcome(url, out) is Failed,
        out.success ==> download_outcome(url, out) == StepView::<AudioInfoView>::Failed(
            download_unparsed(),
        ),
{
}

} // verus!
