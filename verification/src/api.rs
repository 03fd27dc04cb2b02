//! The public façade: one operation per entry point, each performed
//! through one translator over one executor, with every translator-level
//! failure flattened into a single string-shaped error. The contracts
//! repeat exactly what the translator promises, stated over the same
//! invocation history.

use vstd::prelude::*;

use crate::cmd;
use crate::cmd::Cmd;
use crate::cmd::decoded_reported;
use crate::cmd::details_trace;
use crate::cmd::get_values_args;
use crate::cmd::install_args;
use crate::cmd::list_args;
use crate::cmd::ran_one;
use crate::cmd::rename_trace;
use crate::cmd::repo_add_args;
use crate::cmd::repo_ls_args;
use crate::cmd::repo_remove_args;
use crate::cmd::repo_update_args;
use crate::cmd::search_args;
use crate::cmd::text_reported;
use crate::cmd::trimmed_reported;
use crate::cmd::uninstall_args;
use crate::cmd::unit_reported;
use crate::cmd::values_file_name;
use crate::cmd::version_args;
use crate::data::ChartDetails;
use crate::data::ChartDetailsV;
use crate::data::ChartListItem;
use crate::data::ChartListItemV;
use crate::data::InstallChartRequest;
use crate::data::Release;
use crate::data::ReleaseV;
use crate::data::Repo;
use crate::data::RepoV;
use crate::decode::chart_items_of_text;
use crate::decode::releases_of_text;
use crate::decode::repos_of_text;
use crate::executor::Executor;
use crate::executor::Invocation;
use crate::store::ValuesStore;

verus! {

/// The single string-shaped failure the calling boundary accepts.
#[derive(Debug, PartialEq, Eq)]
pub enum Error {
    SomethingWentWrong(String),
}

impl Error {
    /// The message this failure carries.
    pub open spec fn msg(&self) -> Seq<char> {
        match self {
            Error::SomethingWentWrong(m) => m@,
        }
    }

    /// Flatten the failure into its message.
    pub fn into_message(self) -> (r: String)
        ensures
            r@ == self.msg(),
    {
        match self {
            Error::SomethingWentWrong(m) => m,
        }
    }
}

/// Translate a translator-level failure, keeping the message.
pub fn error_from_cmd(value: cmd::Error) -> (r: Error)
    ensures
        r.msg() == value.msg(),
{
    match value {
        cmd::Error::SomethingWentWrong(v) => Error::SomethingWentWrong(v),
    }
}

/// The result of an operation with its error flattened to its message.
pub open spec fn ures(r: Result<(), Error>) -> Result<(), Seq<char>> {
    match r {
        Ok(_) => Ok(()),
        Err(e) => Err(e.msg()),
    }
}

/// The result of a text-returning operation, as views.
pub open spec fn vres(r: Result<String, Error>) -> Result<Seq<char>, Seq<char>> {
    match r {
        Ok(v) => Ok(v@),
        Err(e) => Err(e.msg()),
    }
}

/// The result of a repository listing, as views.
pub open spec fn rres(r: Result<Vec<Repo>, Error>) -> Result<Seq<RepoV>, Seq<char>> {
    match r {
        Ok(v) => Ok(v.deep_view()),
        Err(e) => Err(e.msg()),
    }
}

/// The result of a release listing, as views.
pub open spec fn lres(r: Result<Vec<Release>, Error>) -> Result<Seq<ReleaseV>, Seq<char>> {
    match r {
        Ok(v) => Ok(v.deep_view()),
        Err(e) => Err(e.msg()),
    }
}

/// The result of a chart search, as views.
pub open spec fn cres(r: Result<Vec<ChartListItem>, Error>) -> Result<
    Seq<ChartListItemV>,
    Seq<char>,
> {
    match r {
        Ok(v) => Ok(v.deep_view()),
        Err(e) => Err(e.msg()),
    }
}

/// The result of a chart-details retrieval, as views.
pub open spec fn dres(r: Result<ChartDetails, Error>) -> Result<ChartDetailsV, Seq<char>> {
    match r {
        Ok(v) => Ok(v@),
        Err(e) => Err(e.msg()),
    }
}

/// The stateless per-call entry point: one translator over one executor,
/// one domain operation per method.
pub struct Api<E: Executor> {
    pub cmd: Cmd<E>,
}

impl<E: Executor> Api<E> {
    /// The façade is ready for an operation.
    pub open spec fn wf(&self) -> bool {
        self.cmd.wf()
    }

    /// Every invocation issued through this façade's executor.
    pub open spec fn history(&self) -> Seq<Invocation> {
        self.cmd.history()
    }

    /// Build a façade over a fresh executor.
    pub fn new(executor: E) -> (r: Self)
        requires
            executor.args() == Seq::<Seq<char>>::empty(),
        ensures
            r.wf(),
            r.history() == executor.history(),
    {
        Api { cmd: Cmd::new(executor) }
    }

    /// Register a repository under a name and URL.
    pub fn add_repository(&mut self, name: String, url: String) -> (r: Result<(), Error>)
        requires
            old(self).wf(),
        ensures
            final(self).wf(),
            ran_one(old(self).history(), final(self).history(), repo_add_args(name@, url@)),
            unit_reported(final(self).history().last().outcome, ures(r)),
    {
        match self.cmd.add_repo(name, url) {
            Ok(_) => Ok(()),
            Err(e) => Err(error_from_cmd(e)),
        }
    }

    /// Rename a repository through the probe-then-replace sequence.
    pub fn update_repository(&mut self, old_name: String, name: String, url: String) -> (r: Result<
        (),
        Error,
    >)
        requires
            old(self).wf(),
        ensures
            final(self).wf(),
            rename_trace(
                old(self).history(),
                final(self).history(),
                old_name@,
                name@,
                url@,
                ures(r),
            ),
    {
        match self.cmd.update_repo(old_name, name, url) {
            Ok(_) => Ok(()),
            Err(e) => Err(error_from_cmd(e)),
        }
    }

    /// Refresh every repository index.
    pub fn refresh_repositories(&mut self) -> (r: Result<(), Error>)
        requires
            old(self).wf(),
        ensures
            final(self).wf(),
            ran_one(old(self).history(), final(self).history(), repo_update_args()),
            unit_reported(final(self).history().last().outcome, ures(r)),
    {
        match self.cmd.refresh_repos() {
            Ok(_) => Ok(()),
            Err(e) => Err(error_from_cmd(e)),
        }
    }

    /// Delete a repository registration.
    pub fn delete_repository(&mut self, name: String) -> (r: Result<(), Error>)
        requires
            old(self).wf(),
        ensures
            final(self).wf(),
            ran_one(old(self).history(), final(self).history(), repo_remove_args(name@)),
            unit_reported(final(self).history().last().outcome, ures(r)),
    {
        match self.cmd.delete_repository(name) {
            Ok(_) => Ok(()),
            Err(e) => Err(error_from_cmd(e)),
        }
    }

    /// List the registered repositories.
    pub fn repos(&mut self) -> (r: Result<Vec<Repo>, Error>)
        requires
            old(self).wf(),
        ensures
            final(self).wf(),
            ran_one(old(self).history(), final(self).history(), repo_ls_args()),
            decoded_reported(
                final(self).history().last().outcome,
                rres(r),
                |t: Seq<char>| repos_of_text(t),
                "cannot decode repository list"@,
            ),
    {
        match self.cmd.repos() {
            Ok(v) => Ok(v),
            Err(e) => Err(error_from_cmd(e)),
        }
    }

    /// List every installed release, across all namespaces.
    pub fn list(&mut self) -> (r: Result<Vec<Release>, Error>)
        requires
            old(self).wf(),
        ensures
            final(self).wf(),
            ran_one(old(self).history(), final(self).history(), list_args()),
            decoded_reported(
                final(self).history().last().outcome,
                lres(r),
                |t: Seq<char>| releases_of_text(t),
                "cannot decode release list"@,
            ),
    {
        match self.cmd.list() {
            Ok(v) => Ok(v),
            Err(e) => Err(error_from_cmd(e)),
        }
    }

    /// The external tool's own version, trimmed.
    pub fn version(&mut self) -> (r: Result<String, Error>)
        requires
            old(self).wf(),
        ensures
            final(self).wf(),
            ran_one(old(self).history(), final(self).history(), version_args()),
            trimmed_reported(final(self).history().last().outcome, vres(r)),
    {
        match self.cmd.version() {
            Ok(v) => Ok(v),
            Err(e) => Err(error_from_cmd(e)),
        }
    }

    /// Search the registered repositories for charts.
    pub fn find_charts_in_repo(&mut self, filter: String) -> (r: Result<Vec<ChartListItem>, Error>)
        requires
            old(self).wf(),
        ensures
            final(self).wf(),
            ran_one(old(self).history(), final(self).history(), search_args(filter@)),
            decoded_reported(
                final(self).history().last().outcome,
                cres(r),
                |t: Seq<char>| chart_items_of_text(t),
                "cannot decode chart list"@,
            ),
    {
        match self.cmd.find_charts_in_repo(filter) {
            Ok(v) => Ok(v),
            Err(e) => Err(error_from_cmd(e)),
        }
    }

    /// Fetch and aggregate a chart's metadata, readme and default values.
    pub fn get_chart_details(&mut self, name: String) -> (r: Result<ChartDetails, Error>)
        requires
            old(self).wf(),
        ensures
            final(self).wf(),
            details_trace(old(self).history(), final(self).history(), name@, dres(r)),
    {
        match self.cmd.get_chart_details(name) {
            Ok(v) => Ok(v),
            Err(e) => Err(error_from_cmd(e)),
        }
    }

    /// Install a chart as a named release into a namespace.
    pub fn install_chart<S: ValuesStore>(
        &mut self,
        request: InstallChartRequest,
        store: &mut S,
    ) -> (r: Result<(), Error>)
        requires
            old(self).wf(),
        ensures
            final(self).wf(),
            request@.values is None ==> {
                &&& ran_one(old(self).history(), final(self).history(), install_args(request@))
                &&& unit_reported(final(self).history().last().outcome, ures(r))
                &&& final(store).files() == old(store).files()
                &&& final(store).writes() == old(store).writes()
            },
            request@.values matches Some(vals) ==> {
                ||| (final(self).history() == old(self).history() && final(store).files() == old(
                    store,
                ).files() && final(store).writes() == old(store).writes() && r is Err)
                ||| ({
                    &&& final(store).writes().len() == old(store).writes().len() + 1
                    &&& final(store).writes().drop_last() == old(store).writes()
                    &&& final(store).writes().last().1 == vals
                    &&& values_file_name(request@).is_suffix_of(final(store).writes().last().0)
                    &&& ran_one(
                        old(self).history(),
                        final(self).history(),
                        install_args(request@).push("-f"@).push(final(store).writes().last().0),
                    )
                    &&& final(store).files() == old(store).files().remove(
                        final(store).writes().last().0,
                    )
                    &&& !final(store).files().contains_key(final(store).writes().last().0)
                    &&& unit_reported(final(self).history().last().outcome, ures(r))
                })
            },
    {
        match self.cmd.install_chart(request, store) {
            Ok(_) => Ok(()),
            Err(e) => Err(error_from_cmd(e)),
        }
    }

    /// Uninstall a release from a namespace.
    pub fn uninstall_chart(&mut self, release_name: String, namespace: String) -> (r: Result<
        (),
        Error,
    >)
        requires
            old(self).wf(),
        ensures
            final(self).wf(),
            ran_one(
                old(self).history(),
                final(self).history(),
                uninstall_args(release_name@, namespace@),
            ),
            unit_reported(final(self).history().last().outcome, ures(r)),
    {
        match self.cmd.uninstall_chart(release_name, namespace) {
            Ok(_) => Ok(()),
            Err(e) => Err(error_from_cmd(e)),
        }
    }

    /// The values a release was installed with, as raw YAML text.
    pub fn get_values(&mut self, release_name: String, namespace: String) -> (r: Result<
        String,
        Error,
    >)
        requires
            old(self).wf(),
        ensures
            final(self).wf(),
            ran_one(
                old(self).history(),
                final(self).history(),
                get_values_args(release_name@, namespace@),
            ),
            text_reported(final(self).history().last().outcome, vres(r)),
    {
        match self.cmd.get_values(release_name, namespace) {
            Ok(v) => Ok(v),
            Err(e) => Err(error_from_cmd(e)),
        }
    }
}

} // verus!
