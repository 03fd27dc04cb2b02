//! The operation translator: each domain operation is mapped onto one or
//! more invocations of the external `helm` program, with the exact
//! argument sequence stated in its contract, and the tool's output decoded
//! into the entities of this layer. Every contract speaks about the
//! executor's invocation history, so the order and content of the issued
//! commands is pinned down, and about how the result reports the recorded
//! outcome.

use vstd::prelude::*;

use crate::chart::chart_info_of_yaml;
use crate::chart::chart_info_from_yaml;
use crate::data::ChartDetails;
use crate::data::ChartDetailsV;
use crate::data::ChartListItem;
use crate::data::ChartListItemV;
use crate::data::InstallChartRequest;
use crate::data::InstallChartRequestV;
use crate::data::Release;
use crate::data::ReleaseV;
use crate::data::Repo;
use crate::data::RepoV;
use crate::decode::chart_items_from_text;
use crate::decode::chart_items_of_text;
use crate::decode::releases_from_text;
use crate::decode::releases_of_text;
use crate::decode::repos_from_text;
use crate::decode::repos_of_text;
use crate::executor;
use crate::executor::Executor;
use crate::executor::Invocation;
use crate::executor::Outcome;
use crate::store::ValuesStore;
use crate::text::html_of;
use crate::text::random_name;
use crate::text::render_markdown;
use crate::text::replace_char;
use crate::text::replace_char_spec;
use crate::text::trim;
use crate::text::trim_spec;

verus! {

/// A failure of the translation layer: every execution-level and
/// decode-level failure collapses into one kind carrying a readable
/// message.
#[derive(Debug, PartialEq, Eq)]
pub enum Error {
    SomethingWentWrong(String),
}

impl Error {
    /// The message this failure carries.
    pub open spec fn msg(&self) -> Seq<char> {
        match self {
            Error::SomethingWentWrong(m) => m@,
        }
    }
}

/// Translate an execution-level failure into a translation-level one,
/// keeping the diagnostic text.
pub fn error_from_exec(value: executor::Error) -> (r: Error)
    ensures
        value matches executor::Error::CannotExecuteCommand(v) ==> r.msg() == v@,
        value is NoCommand ==> r.msg() == "no command"@,
{
    match value {
        executor::Error::NoCommand => Error::SomethingWentWrong("no command".to_owned()),
        executor::Error::CannotExecuteCommand(v) => Error::SomethingWentWrong(v),
    }
}

/// The result of an operation with its error flattened to its message.
pub open spec fn ures(r: Result<(), Error>) -> Result<(), Seq<char>> {
    match r {
        Ok(_) => Ok(()),
        Err(e) => Err(e.msg()),
    }
}

/// The result of a text-returning operation, as views.
pub open spec fn vres(r: Result<String, Error>) -> Result<Seq<char>, Seq<char>> {
    match r {
        Ok(v) => Ok(v@),
        Err(e) => Err(e.msg()),
    }
}

/// The result of a repository listing, as views.
pub open spec fn rres(r: Result<Vec<Repo>, Error>) -> Result<Seq<RepoV>, Seq<char>> {
    match r {
        Ok(v) => Ok(v.deep_view()),
        Err(e) => Err(e.msg()),
    }
}

/// The result of a release listing, as views.
pub open spec fn lres(r: Result<Vec<Release>, Error>) -> Result<Seq<ReleaseV>, Seq<char>> {
    match r {
        Ok(v) => Ok(v.deep_view()),
        Err(e) => Err(e.msg()),
    }
}

/// The result of a chart search, as views.
pub open spec fn cres(r: Result<Vec<ChartListItem>, Error>) -> Result<Seq<ChartListItemV>, Seq<char>> {
    match r {
        Ok(v) => Ok(v.deep_view()),
        Err(e) => Err(e.msg()),
    }
}

/// The result of a chart-details retrieval, as views.
pub open spec fn dres(r: Result<ChartDetails, Error>) -> Result<ChartDetailsV, Seq<char>> {
    match r {
        Ok(v) => Ok(v@),
        Err(e) => Err(e.msg()),
    }
}

/// The arguments of the repository listing command.
pub open spec fn repo_ls_args() -> Seq<Seq<char>> {
    seq!["repo"@, "ls"@, "-o"@, "json"@]
}

/// The arguments that register a repository.
pub open spec fn repo_add_args(name: Seq<char>, url: Seq<char>) -> Seq<Seq<char>> {
    seq!["repo"@, "add"@, name, url]
}

/// The arguments that delete a repository.
pub open spec fn repo_remove_args(name: Seq<char>) -> Seq<Seq<char>> {
    seq!["repo"@, "remove"@, name]
}

/// The arguments that refresh every repository index.
pub open spec fn repo_update_args() -> Seq<Seq<char>> {
    seq!["repo"@, "update"@]
}

/// The arguments of a chart search.
pub open spec fn search_args(filter: Seq<char>) -> Seq<Seq<char>> {
    seq!["-o"@, "json"@, "search"@, "repo"@, filter]
}

/// The arguments of the release listing command.
pub open spec fn list_args() -> Seq<Seq<char>> {
    seq!["list"@, "-A"@, "-o"@, "json"@]
}

/// The arguments of the tool-version command.
pub open spec fn version_args() -> Seq<Seq<char>> {
    seq!["version"@, "--template"@, "{{.Version}}"@]
}

/// The arguments of one `show` sub-command against a chart reference.
pub open spec fn show_args(what: Seq<char>, name: Seq<char>) -> Seq<Seq<char>> {
    seq!["show"@, what, name]
}

/// The base arguments of a chart installation, before any values file.
pub open spec fn install_args(req: InstallChartRequestV) -> Seq<Seq<char>> {
    seq!["install"@, req.name, req.chart_name, "--namespace"@, req.namespace, "--create-namespace"@]
}

/// The arguments that uninstall a release.
pub open spec fn uninstall_args(release: Seq<char>, namespace: Seq<char>) -> Seq<Seq<char>> {
    seq!["uninstall"@, release, "-n"@, namespace]
}

/// The arguments that fetch a release's values.
pub open spec fn get_values_args(release: Seq<char>, namespace: Seq<char>) -> Seq<Seq<char>> {
    seq!["get"@, "values"@, release, "-n"@, namespace, "-o"@, "yaml"@]
}

/// The name of the temporary values file of one installation: the chart
/// reference with path separators replaced, the release name, and a YAML
/// suffix.
pub open spec fn values_file_name(req: InstallChartRequestV) -> Seq<char> {
    replace_char_spec(replace_char_spec(req.chart_name, '/', '_'), '\\', '_') + "_"@ + req.name
        + ".yaml"@
}

/// Exactly one invocation of the tool was appended to the history, with
/// the given arguments.
pub open spec fn ran_one(pre: Seq<Invocation>, post: Seq<Invocation>, args: Seq<Seq<char>>) -> bool {
    &&& post.len() == pre.len() + 1
    &&& post.drop_last() == pre
    &&& post.last().program == "helm"@
    &&& post.last().args == args
}

/// A unit operation reports its invocation's outcome: success as is, a
/// failure with the recorded error text as its message.
pub open spec fn unit_reported(outcome: Outcome, mr: Result<(), Seq<char>>) -> bool {
    match mr {
        Ok(_) => outcome is Success,
        Err(m) => outcome == Outcome::Failure(m),
    }
}

/// A raw-text operation hands the recorded output through unchanged.
pub open spec fn text_reported(outcome: Outcome, mr: Result<Seq<char>, Seq<char>>) -> bool {
    match mr {
        Ok(v) => outcome == Outcome::Success(v),
        Err(m) => outcome == Outcome::Failure(m),
    }
}

/// The version operation hands the recorded output through trimmed.
pub open spec fn trimmed_reported(outcome: Outcome, mr: Result<Seq<char>, Seq<char>>) -> bool {
    match mr {
        Ok(v) => outcome matches Outcome::Success(out) && v == trim_spec(out),
        Err(m) => outcome == Outcome::Failure(m),
    }
}

/// A decoding operation returns the decoded output exactly when the run
/// succeeded and its output decodes; a run failure keeps the recorded
/// error text, and undecodable output reports the given message.
pub open spec fn decoded_reported<T>(
    outcome: Outcome,
    mr: Result<T, Seq<char>>,
    decode: spec_fn(Seq<char>) -> Option<T>,
    failmsg: Seq<char>,
) -> bool {
    match mr {
        Ok(v) => outcome matches Outcome::Success(out) && decode(out) == Some(v),
        Err(m) => {
            ||| (outcome matches Outcome::Failure(fm) && m == fm)
            ||| (outcome matches Outcome::Success(out) && decode(out) is None && m == failmsg)
        },
    }
}

/// The trace a repository rename leaves, for the temporary name it drew:
/// a probing registration of the new URL, removal of the probe, removal of
/// the old entry, registration under the final name — halted at the first
/// failure, whose error text the result carries.
pub open spec fn rename_trace_with(
    pre: Seq<Invocation>,
    post: Seq<Invocation>,
    tmp: Seq<char>,
    old_name: Seq<char>,
    name: Seq<char>,
    url: Seq<char>,
    mr: Result<(), Seq<char>>,
) -> bool {
    let n = pre.len() as int;
    let k = post.len() - pre.len();
    &&& pre.is_prefix_of(post)
    &&& 1 <= k <= 4
    &&& post[n].program == "helm"@ && post[n].args == repo_add_args(tmp, url)
    &&& (k >= 2 ==> post[n].outcome is Success && post[n + 1].program == "helm"@ && post[n + 1].args
        == repo_remove_args(tmp))
    &&& (k >= 3 ==> post[n + 1].outcome is Success && post[n + 2].program == "helm"@ && post[n
        + 2].args == repo_remove_args(old_name))
    &&& (k == 4 ==> post[n + 2].outcome is Success && post[n + 3].program == "helm"@ && post[n
        + 3].args == repo_add_args(name, url))
    &&& match mr {
        Ok(_) => k == 4 && post.last().outcome is Success,
        Err(m) => post.last().outcome == Outcome::Failure(m),
    }
}

/// A repository rename's trace, for some temporary name.
pub open spec fn rename_trace(
    pre: Seq<Invocation>,
    post: Seq<Invocation>,
    old_name: Seq<char>,
    name: Seq<char>,
    url: Seq<char>,
    mr: Result<(), Seq<char>>,
) -> bool {
    exists|tmp: Seq<char>| rename_trace_with(pre, post, tmp, old_name, name, url, mr)
}

/// The trace a chart-details retrieval leaves: metadata, readme and
/// values are requested in that order against the same reference; the
/// sequence halts at the first run failure, or after the first invocation
/// when its output is no well-formed metadata. On success the aggregate
/// carries the decoded metadata, the readme rendered to HTML, and the raw
/// values text.
pub open spec fn details_trace(
    pre: Seq<Invocation>,
    post: Seq<Invocation>,
    name: Seq<char>,
    mr: Result<ChartDetailsV, Seq<char>>,
) -> bool {
    let n = pre.len() as int;
    let k = post.len() - pre.len();
    &&& pre.is_prefix_of(post)
    &&& 1 <= k <= 3
    &&& post[n].program == "helm"@ && post[n].args == show_args("chart"@, name)
    &&& (k >= 2 ==> (post[n].outcome matches Outcome::Success(t) && chart_info_of_yaml(t) is Some
        && post[n + 1].program == "helm"@ && post[n + 1].args == show_args("readme"@, name)))
    &&& (k == 3 ==> post[n + 1].outcome is Success && post[n + 2].program == "helm"@ && post[n
        + 2].args == show_args("values"@, name))
    &&& match mr {
        Ok(d) => {
            &&& k == 3
            &&& (post[n].outcome matches Outcome::Success(t) && chart_info_of_yaml(t) == Some(
                d.info,
            ))
            &&& (post[n + 1].outcome matches Outcome::Success(md) && d.readme == html_of(md))
            &&& (post[n + 2].outcome matches Outcome::Success(vals) && d.values == vals)
        },
        Err(m) => {
            ||| post.last().outcome == Outcome::Failure(m)
            ||| (k == 1 && (post.last().outcome matches Outcome::Success(t) && chart_info_of_yaml(
                t,
            ) is None && m == "cannot decode chart metadata"@))
        },
    }
}

/// One translator, bound to one executor for its whole lifetime; every
/// operation targets the external `helm` program.
pub struct Cmd<E: Executor> {
    pub executor: E,
}

impl<E: Executor> Cmd<E> {
    /// The translator is ready for an operation: the program is fixed and
    /// no arguments are pending.
    pub open spec fn wf(&self) -> bool {
        self.executor.program() == "helm"@ && self.executor.args() == Seq::<Seq<char>>::empty()
    }

    /// Every invocation issued through this translator's executor.
    pub open spec fn history(&self) -> Seq<Invocation> {
        self.executor.history()
    }

    /// Bind a translator to an executor and fix the target program.
    pub fn new(executor: E) -> (r: Self)
        requires
            executor.args() == Seq::<Seq<char>>::empty(),
        ensures
            r.wf(),
            r.history() == executor.history(),
    {
        let mut executor = executor;
        executor.command("helm".to_owned());
        Cmd { executor }
    }

    /// Run the pending invocation and flatten an execution failure.
    fn run(&mut self) -> (r: Result<String, Error>)
        requires
            old(self).executor.program() == "helm"@,
        ensures
            final(self).wf(),
            ran_one(old(self).history(), final(self).history(), old(self).executor.args()),
            ({
                let outcome = final(self).history().last().outcome;
                match r {
                    Ok(s) => outcome == Outcome::Success(s@),
                    Err(e) => outcome == Outcome::Failure(e.msg()),
                }
            }),
    {
        proof {
            reveal_strlit("helm");
        }
        let res = self.executor.execute();
        proof {
            assert(self.executor.history().drop_last() =~= old(self).executor.history());
        }
        match res {
            Ok(s) => Ok(s),
            Err(e) => Err(error_from_exec(e)),
        }
    }

    /// Delete a repository registration.
    pub fn delete_repository(&mut self, name: String) -> (r: Result<(), Error>)
        requires
            old(self).wf(),
        ensures
            final(self).wf(),
            ran_one(old(self).history(), final(self).history(), repo_remove_args(name@)),
            unit_reported(final(self).history().last().outcome, ures(r)),
    {
        self.executor.arg("repo".to_owned());
        self.executor.arg("remove".to_owned());
        self.executor.arg(name);
        proof {
            assert(self.executor.args() =~= repo_remove_args(name@));
        }
        match self.run() {
            Ok(_) => Ok(()),
            Err(e) => Err(e),
        }
    }

    /// Register a repository under a name and URL.
    pub fn add_repo(&mut self, name: String, url: String) -> (r: Result<(), Error>)
        requires
            old(self).wf(),
        ensures
            final(self).wf(),
            ran_one(old(self).history(), final(self).history(), repo_add_args(name@, url@)),
            unit_reported(final(self).history().last().outcome, ures(r)),
    {
        self.executor.arg("repo".to_owned());
        self.executor.arg("add".to_owned());
        self.executor.arg(name);
        self.executor.arg(url);
        proof {
            assert(self.executor.args() =~= repo_add_args(name@, url@));
        }
        match self.run() {
            Ok(_) => Ok(()),
            Err(e) => Err(e),
        }
    }

    /// Refresh every repository index.
    pub fn refresh_repos(&mut self) -> (r: Result<(), Error>)
        requires
            old(self).wf(),
        ensures
            final(self).wf(),
            ran_one(old(self).history(), final(self).history(), repo_update_args()),
            unit_reported(final(self).history().last().outcome, ures(r)),
    {
        self.executor.arg("repo".to_owned());
        self.executor.arg("update".to_owned());
        proof {
            assert(self.executor.args() =~= repo_update_args());
        }
        match self.run() {
            Ok(_) => Ok(()),
            Err(e) => Err(e),
        }
    }

    /// List the registered repositories.
    pub fn repos(&mut self) -> (r: Result<Vec<Repo>, Error>)
        requires
            old(self).wf(),
        ensures
            final(self).wf(),
            ran_one(old(self).history(), final(self).history(), repo_ls_args()),
            decoded_reported(
                final(self).history().last().outcome,
                rres(r),
                |t: Seq<char>| repos_of_text(t),
                "cannot decode repository list"@,
            ),
    {
        self.executor.arg("repo".to_owned());
        self.executor.arg("ls".to_owned());
        self.executor.arg("-o".to_owned());
        self.executor.arg("json".to_owned());
        proof {
            assert(self.executor.args() =~= repo_ls_args());
        }
        match self.run() {
            Ok(out) => match repos_from_text(out.as_str()) {
                Some(v) => Ok(v),
                None => Err(Error::SomethingWentWrong("cannot decode repository list".to_owned())),
            },
            Err(e) => Err(e),
        }
    }

    /// List every installed release, across all namespaces.
    pub fn list(&mut self) -> (r: Result<Vec<Release>, Error>)
        requires
            old(self).wf(),
        ensures
            final(self).wf(),
            ran_one(old(self).history(), final(self).history(), list_args()),
            decoded_reported(
                final(self).history().last().outcome,
                lres(r),
                |t: Seq<char>| releases_of_text(t),
                "cannot decode release list"@,
            ),
    {
        self.executor.arg("list".to_owned());
        self.executor.arg("-A".to_owned());
        self.executor.arg("-o".to_owned());
        self.executor.arg("json".to_owned());
        proof {
            assert(self.executor.args() =~= list_args());
        }
        match self.run() {
            Ok(out) => match releases_from_text(out.as_str()) {
                Some(v) => Ok(v),
                None => Err(Error::SomethingWentWrong("cannot decode release list".to_owned())),
            },
            Err(e) => Err(e),
        }
    }

    /// The external tool's own version, trimmed.
    pub fn version(&mut self) -> (r: Result<String, Error>)
        requires
            old(self).wf(),
        ensures
            final(self).wf(),
            ran_one(old(self).history(), final(self).history(), version_args()),
            trimmed_reported(final(self).history().last().outcome, vres(r)),
    {
        self.executor.arg("version".to_owned());
        self.executor.arg("--template".to_owned());
        self.executor.arg("{{.Version}}".to_owned());
        proof {
            assert(self.executor.args() =~= version_args());
        }
        match self.run() {
            Ok(out) => Ok(trim(out.as_str())),
            Err(e) => Err(e),
        }
    }

    /// Search the registered repositories for charts.
    pub fn find_charts_in_repo(&mut self, filter: String) -> (r: Result<Vec<ChartListItem>, Error>)
        requires
            old(self).wf(),
        ensures
            final(self).wf(),
            ran_one(old(self).history(), final(self).history(), search_args(filter@)),
            decoded_reported(
                final(self).history().last().outcome,
                cres(r),
                |t: Seq<char>| chart_items_of_text(t),
                "cannot decode chart list"@,
            ),
    {
        self.executor.arg("-o".to_owned());
        self.executor.arg("json".to_owned());
        self.executor.arg("search".to_owned());
        self.executor.arg("repo".to_owned());
        self.executor.arg(filter);
        proof {
            assert(self.executor.args() =~= search_args(filter@));
        }
        match self.run() {
            Ok(out) => match chart_items_from_text(out.as_str()) {
                Some(v) => Ok(v),
                None => Err(Error::SomethingWentWrong("cannot decode chart list".to_owned())),
            },
            Err(e) => Err(e),
        }
    }

    /// Uninstall a release from a namespace.
    pub fn uninstall_chart(&mut self, release_name: String, namespace: String) -> (r: Result<
        (),
        Error,
    >)
        requires
            old(self).wf(),
        ensures
            final(self).wf(),
            ran_one(
                old(self).history(),
                final(self).history(),
                uninstall_args(release_name@, namespace@),
            ),
            unit_reported(final(self).history().last().outcome, ures(r)),
    {
        self.executor.arg("uninstall".to_owned());
        self.executor.arg(release_name);
        self.executor.arg("-n".to_owned());
        self.executor.arg(namespace);
        proof {
            assert(self.executor.args() =~= uninstall_args(release_name@, namespace@));
        }
        match self.run() {
            Ok(_) => Ok(()),
            Err(e) => Err(e),
        }
    }

    /// The values a release was installed with, as raw YAML text.
    pub fn get_values(&mut self, release_name: String, namespace: String) -> (r: Result<
        String,
        Error,
    >)
        requires
            old(self).wf(),
        ensures
            final(self).wf(),
            ran_one(
                old(self).history(),
                final(self).history(),
                get_values_args(release_name@, namespace@),
            ),
            text_reported(final(self).history().last().outcome, vres(r)),
    {
        self.executor.arg("get".to_owned());
        self.executor.arg("values".to_owned());
        self.executor.arg(release_name);
        self.executor.arg("-n".to_owned());
        self.executor.arg(namespace);
        self.executor.arg("-o".to_owned());
        self.executor.arg("yaml".to_owned());
        proof {
            assert(self.executor.args() =~= get_values_args(release_name@, namespace@));
        }
        self.run()
    }

    /// Rename a repository: probe the new URL under a fresh temporary
    /// name, drop the probe, drop the old entry, register the final one.
    /// If the probing registration fails, nothing has been removed.
    pub fn update_repo(&mut self, old_name: String, name: String, url: String) -> (r: Result<
        (),
        Error,
    >)
        requires
            old(self).wf(),
        ensures
            final(self).wf(),
            rename_trace(old(self).history(), final(self).history(), old_name@, name@, url@, ures(r)),
    {
        let ghost pre = self.history();
        let temporary_name = random_name();
        let ghost tmp = temporary_name@;
        match self.add_repo(temporary_name.clone(), url.clone()) {
            Ok(_) => (),
            Err(e) => {
                proof {
                    assert(rename_trace_with(pre, self.history(), tmp, old_name@, name@, url@, ures(Err::<(), Error>(e))));
                }
                return Err(e);
            },
        }
        match self.delete_repository(temporary_name) {
            Ok(_) => (),
            Err(e) => {
                proof {
                    assert(self.history().drop_last()[pre.len() as int] == self.history()[pre.len() as int]);
                    assert(rename_trace_with(pre, self.history(), tmp, old_name@, name@, url@, ures(Err::<(), Error>(e))));
                }
                return Err(e);
            },
        }
        match self.delete_repository(old_name) {
            Ok(_) => (),
            Err(e) => {
                proof {
                    assert(rename_trace_with(pre, self.history(), tmp, old_name@, name@, url@, ures(Err::<(), Error>(e))));
                }
                return Err(e);
            },
        }
        match self.add_repo(name, url) {
            Ok(_) => (),
            Err(e) => {
                proof {
                    assert(rename_trace_with(pre, self.history(), tmp, old_name@, name@, url@, ures(Err::<(), Error>(e))));
                }
                return Err(e);
            },
        }
        proof {
            assert(rename_trace_with(pre, self.history(), tmp, old_name@, name@, url@, ures(Ok(()))));
        }
        Ok(())
    }

    /// Fetch a chart's metadata, readme and default values, and aggregate
    /// them; the readme is rendered from Markdown to HTML.
    pub fn get_chart_details(&mut self, name: String) -> (r: Result<ChartDetails, Error>)
        requires
            old(self).wf(),
        ensures
            final(self).wf(),
            details_trace(old(self).history(), final(self).history(), name@, dres(r)),
    {
        let ghost pre = self.history();
        self.executor.arg("show".to_owned());
        self.executor.arg("chart".to_owned());
        self.executor.arg(name.clone());
        proof {
            assert(self.executor.args() =~= show_args("chart"@, name@));
        }
        let info_text = match self.run() {
            Ok(out) => out,
            Err(e) => {
                return Err(e);
            },
        };
        let info = match chart_info_from_yaml(info_text.as_str()) {
            Some(ci) => ci,
            None => {
                return Err(Error::SomethingWentWrong("cannot decode chart metadata".to_owned()));
            },
        };
        self.executor.arg("show".to_owned());
        self.executor.arg("readme".to_owned());
        self.executor.arg(name.clone());
        proof {
            assert(self.executor.args() =~= show_args("readme"@, name@));
        }
        let readme_text = match self.run() {
            Ok(out) => out,
            Err(e) => {
                proof {
                    assert(self.history().drop_last()[pre.len() as int] == self.history()[pre.len() as int]);
                }
                return Err(e);
            },
        };
        self.executor.arg("show".to_owned());
        self.executor.arg("values".to_owned());
        self.executor.arg(name.clone());
        proof {
            assert(self.executor.args() =~= show_args("values"@, name@));
        }
        let values = match self.run() {
            Ok(out) => out,
            Err(e) => {
                return Err(e);
            },
        };
        let readme = render_markdown(readme_text.as_str());
        Ok(ChartDetails { info, readme, values })
    }

    /// Install a chart as a named release into a namespace, creating the
    /// namespace if needed. A values payload is written to a temporary
    /// file, handed to the tool with `-f`, and deleted again on every
    /// path.
    pub fn install_chart<S: ValuesStore>(&mut self, request: InstallChartRequest, store: &mut S) -> (r: Result<(), Error>)
        requires
            old(self).wf(),
        ensures
            final(self).wf(),
            request@.values is None ==> {
                &&& ran_one(old(self).history(), final(self).history(), install_args(request@))
                &&& unit_reported(final(self).history().last().outcome, ures(r))
                &&& final(store).files() == old(store).files()
                &&& final(store).writes() == old(store).writes()
            },
            request@.values matches Some(vals) ==> {
                ||| (final(self).history() == old(self).history() && final(store).files() == old(
                    store,
                ).files() && final(store).writes() == old(store).writes() && r is Err)
                ||| ({
                    &&& final(store).writes().len() == old(store).writes().len() + 1
                    &&& final(store).writes().drop_last() == old(store).writes()
                    &&& final(store).writes().last().1 == vals
                    &&& values_file_name(request@).is_suffix_of(final(store).writes().last().0)
                    &&& ran_one(
                        old(self).history(),
                        final(self).history(),
                        install_args(request@).push("-f"@).push(final(store).writes().last().0),
                    )
                    &&& final(store).files() == old(store).files().remove(
                        final(store).writes().last().0,
                    )
                    &&& !final(store).files().contains_key(final(store).writes().last().0)
                    &&& unit_reported(final(self).history().last().outcome, ures(r))
                })
            },
    {
        let ghost reqv = request@;
        let path: Option<String> = match request.values {
            Some(vals) => {
                let prefix = replace_char(request.chart_name.as_str(), '/', '_');
                let prefix = replace_char(prefix.as_str(), '\\', '_');
                let mut fname = prefix;
                fname.append("_");
                fname.append(request.name.as_str());
                fname.append(".yaml");
                proof {
                    assert(fname@ =~= values_file_name(reqv));
                }
                match store.write(fname, vals) {
                    Ok(p) => Some(p),
                    Err(_) => {
                        return Err(
                            Error::SomethingWentWrong("cannot write values file".to_owned()),
                        );
                    },
                }
            },
            None => None,
        };
        self.executor.arg("install".to_owned());
        self.executor.arg(request.name);
        self.executor.arg(request.chart_name);
        self.executor.arg("--namespace".to_owned());
        self.executor.arg(request.namespace);
        self.executor.arg("--create-namespace".to_owned());
        proof {
            assert(self.executor.args() =~= install_args(reqv));
        }
        match path {
            Some(p) => {
                self.executor.arg("-f".to_owned());
                self.executor.arg(p.clone());
                proof {
                    assert(self.executor.args() =~= install_args(reqv).push("-f"@).push(p@));
                }
                let res = self.run();
                store.remove(p);
                match res {
                    Ok(_) => Ok(()),
                    Err(e) => Err(e),
                }
            },
            None => {
                let res = self.run();
                match res {
                    Ok(_) => Ok(()),
                    Err(e) => Err(e),
                }
            },
        }
    }
}

} // verus!
