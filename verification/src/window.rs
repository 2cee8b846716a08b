//! The window aggregate: configuration, the single-slot content stager, the
//! staged-versus-live lifecycle, and the one-time materialization that turns
//! the staged state into a concrete plan for the native collaborators.

use vstd::prelude::*;
use vstd::string::StringExecFns;

use crate::options::{
    resolved_app_name, resolved_devtools, resolved_height, resolved_title, resolved_width,
    WindowOptions,
};

verus! {

/// A content request: the one thing the surface is asked to show, either a
/// URL to navigate to or inline markup to render.
#[derive(Debug)]
pub enum ContentRequest {
    Url(String),
    Html(String),
}

/// The staged-versus-live state of the surface. Before materialization the
/// window holds at most one pending content request; after it, the live
/// surface (owned by the unverified shell) is the target of every content
/// operation, so a materialized-but-unstaged state is unrepresentable.
pub enum SurfaceState {
    Staged(Option<ContentRequest>),
    Live,
}

/// An operation that must be forwarded to the live native window or surface.
/// The core decides; the unverified shell performs the call.
pub enum SurfaceCommand {
    SetTitle(String),
    LoadUrl(String),
    LoadHtml(String),
}

/// Everything the native collaborators need to materialize a window: the
/// resolved title, logical size and devtools flag, the storage context
/// directory, and the pending content request, if one was staged.
#[derive(Debug)]
pub struct MaterializePlan {
    pub title: String,
    pub width: u16,
    pub height: u16,
    pub devtools: bool,
    pub storage_dir: String,
    pub content: Option<ContentRequest>,
}

/// Why materialization was refused.
#[derive(Clone, Copy, PartialEq, Eq, Structural, Debug)]
pub enum CreateError {
    /// The window was already materialized: materializing is one-time, and a
    /// second attempt deterministically fails without changing the window.
    AlreadyMaterialized,
}

/// The window: its configuration and the staged-versus-live surface state.
/// Constructed empty, staged zero or more times, materialized exactly once,
/// then live until the event loop observes a close request.
pub struct Window {
    pub options: WindowOptions,
    pub surface: SurfaceState,
}

/// The storage context path derived from a temp root and an app name. The
/// path separator is inserted deliberately: naive concatenation of the two
/// would run the app name into the temp root's last component.
pub open spec fn storage_dir_spec(temp_root: Seq<char>, app_name: Seq<char>) -> Seq<char> {
    temp_root + "/"@ + app_name
}

/// Derives the storage context directory for a surface's cookies, cache and
/// local storage: `<temp_root>/<app_name>`. Deterministic in its arguments;
/// the directory is never cleaned up by this core.
pub fn storage_context_dir(temp_root: &str, app_name: &str) -> (r: String)
    ensures
        r@ == storage_dir_spec(temp_root@, app_name@),
{
    let mut s = String::from_str(temp_root);
    s.append("/");
    s.append(app_name);
    s
}

/// Effect of a URL load: staged while the surface does not exist (replacing
/// any pending request of either kind), forwarded at once when it does.
pub open spec fn stage_url_spec(w: Window, url: String) -> (Window, Option<SurfaceCommand>) {
    if w.surface is Live {
        (w, Some(SurfaceCommand::LoadUrl(url)))
    } else {
        (
            (Window { surface: SurfaceState::Staged(Some(ContentRequest::Url(url))), ..w }),
            None,
        )
    }
}

/// Effect of an HTML load: staged while the surface does not exist (replacing
/// any pending request of either kind), forwarded at once when it does.
pub open spec fn stage_html_spec(w: Window, html: String) -> (Window, Option<SurfaceCommand>) {
    if w.surface is Live {
        (w, Some(SurfaceCommand::LoadHtml(html)))
    } else {
        (
            (Window { surface: SurfaceState::Staged(Some(ContentRequest::Html(html))), ..w }),
            None,
        )
    }
}

/// Effect of a title update: the configuration's title is always updated, and
/// a live window is additionally told to retitle at once.
pub open spec fn set_title_spec(w: Window, title: String) -> (Window, Option<SurfaceCommand>) {
    (
        (Window {
            options: (WindowOptions { title: Some(title), ..w.options }),
            ..w
        }),
        if w.surface is Live {
            Some(SurfaceCommand::SetTitle(title))
        } else {
            None
        },
    )
}

/// The window after a successful materialization: same configuration, surface
/// live, pending slot gone.
pub open spec fn after_materialize(w: Window) -> Window {
    Window { surface: SurfaceState::Live, ..w }
}

/// What a materialization plan must say about the window it came from: every
/// field resolved from the configuration by the documented default rules, the
/// storage directory derived from the app name, and the staged content
/// carried over as it was.
pub open spec fn plan_matches(plan: MaterializePlan, w: Window, temp_root: Seq<char>) -> bool {
    &&& plan.title@ == resolved_title(w.options)
    &&& plan.width == resolved_width(w.options)
    &&& plan.height == resolved_height(w.options)
    &&& plan.devtools == resolved_devtools(w.options)
    &&& plan.storage_dir@ == storage_dir_spec(temp_root, resolved_app_name(w.options))
    &&& plan.content == w.pending()
}

impl Window {
    /// Whether the surface exists: content operations forward rather than stage.
    pub open spec fn is_live(self) -> bool {
        self.surface is Live
    }

    /// The pending content request, if the window is unmaterialized and one
    /// was staged.
    pub open spec fn pending(self) -> Option<ContentRequest> {
        match self.surface {
            SurfaceState::Staged(p) => p,
            SurfaceState::Live => None,
        }
    }

    /// A fresh, unmaterialized window with nothing staged. With no
    /// configuration at all, the defaults of `WindowOptions::default` apply;
    /// an explicit configuration is taken as given, absent fields resolving
    /// later at the point of use.
    pub fn new(options: Option<WindowOptions>) -> (r: Self)
        ensures
            !r.is_live(),
            r.pending() is None,
            options matches Some(o) ==> r.options == o,
            options is None ==> crate::options::is_default_options(r.options),
    {
        Window {
            options: match options {
                Some(o) => o,
                None => WindowOptions::default(),
            },
            surface: SurfaceState::Staged(None),
        }
    }

    /// Updates the configuration's title; on a live window, also returns the
    /// retitle command for the shell to forward at once.
    pub fn set_title(&mut self, title: String) -> (cmd: Option<SurfaceCommand>)
        ensures
            *final(self) == set_title_spec(*old(self), title).0,
            cmd == set_title_spec(*old(self), title).1,
    {
        let live = match &self.surface {
            SurfaceState::Live => true,
            SurfaceState::Staged(_) => false,
        };
        if live {
            self.options.title = Some(title.clone());
            Some(SurfaceCommand::SetTitle(title))
        } else {
            self.options.title = Some(title);
            None
        }
    }

    /// Stages a URL load while unmaterialized (overwriting any pending
    /// request of either kind: last write wins); on a live window, returns
    /// the navigation command for the shell to forward at once, leaving the
    /// window untouched. Staging never fails.
    pub fn load_url(&mut self, url: String) -> (cmd: Option<SurfaceCommand>)
        ensures
            *final(self) == stage_url_spec(*old(self), url).0,
            cmd == stage_url_spec(*old(self), url).1,
    {
        match &self.surface {
            SurfaceState::Live => Some(SurfaceCommand::LoadUrl(url)),
            SurfaceState::Staged(_) => {
                self.surface = SurfaceState::Staged(Some(ContentRequest::Url(url)));
                None
            },
        }
    }

    /// Stages an HTML load while unmaterialized (overwriting any pending
    /// request of either kind: last write wins); on a live window, returns
    /// the navigation command for the shell to forward at once, leaving the
    /// window untouched. Staging never fails.
    pub fn load_html(&mut self, html: String) -> (cmd: Option<SurfaceCommand>)
        ensures
            *final(self) == stage_html_spec(*old(self), html).0,
            cmd == stage_html_spec(*old(self), html).1,
    {
        match &self.surface {
            SurfaceState::Live => Some(SurfaceCommand::LoadHtml(html)),
            SurfaceState::Staged(_) => {
                self.surface = SurfaceState::Staged(Some(ContentRequest::Html(html)));
                None
            },
        }
    }

    /// The one-time materialization: consumes the staged state and hands back
    /// the plan the native collaborators are built from, with every field
    /// resolved by the documented default rules. `temp_root` is the
    /// platform's temp directory, supplied by the shell. Fails exactly when
    /// the window is already live, and then changes nothing.
    pub fn create(&mut self, temp_root: &str) -> (r: Result<MaterializePlan, CreateError>)
        ensures
            old(self).is_live() ==> {
                &&& r is Err
                &&& r == Err::<MaterializePlan, CreateError>(CreateError::AlreadyMaterialized)
                &&& *final(self) == *old(self)
            },
            !old(self).is_live() ==> {
                &&& r matches Ok(plan)
                &&& plan_matches(plan, *old(self), temp_root@)
                &&& *final(self) == after_materialize(*old(self))
            },
    {
        match &self.surface {
            SurfaceState::Live => Err(CreateError::AlreadyMaterialized),
            SurfaceState::Staged(_) => {
                let title = self.get_title();
                let width = self.get_width();
                let height = self.get_height();
                let devtools = self.get_devtools();
                let storage_dir = self.get_web_context_dir(temp_root);
                let mut taken = SurfaceState::Live;
                core::mem::swap(&mut self.surface, &mut taken);
                let content = match taken {
                    SurfaceState::Staged(c) => c,
                    SurfaceState::Live => None,
                };
                Ok(MaterializePlan { title, width, height, devtools, storage_dir, content })
            },
        }
    }

    /// This library's own version string.
    pub fn get_lib_version() -> (r: String)
        ensures
            r@ == lib_version(),
    {
        String::from_str("0.1.0")
    }

    /// The resolved app name: the explicit value, or empty when unset.
    pub fn get_app_name(&self) -> (r: String)
        ensures
            r@ == resolved_app_name(self.options),
    {
        match &self.options.app_name {
            Some(n) => n.clone(),
            None => String::new(),
        }
    }

    /// The resolved width: the explicit value, or the documented default.
    pub fn get_width(&self) -> (r: u16)
        ensures
            r == resolved_width(self.options),
    {
        match self.options.width {
            Some(w) => w,
            None => crate::options::DEFAULT_WIDTH,
        }
    }

    /// The resolved height: the explicit value, or the documented default.
    pub fn get_height(&self) -> (r: u16)
        ensures
            r == resolved_height(self.options),
    {
        match self.options.height {
            Some(h) => h,
            None => crate::options::DEFAULT_HEIGHT,
        }
    }

    /// The resolved title: the explicit value, or empty when unset.
    pub fn get_title(&self) -> (r: String)
        ensures
            r@ == resolved_title(self.options),
    {
        match &self.options.title {
            Some(t) => t.clone(),
            None => String::new(),
        }
    }

    /// The storage context directory this window's surface will own, derived
    /// from the app name under the given temp root.
    pub fn get_web_context_dir(&self, temp_root: &str) -> (r: String)
        ensures
            r@ == storage_dir_spec(temp_root@, resolved_app_name(self.options)),
    {
        let app = self.get_app_name();
        storage_context_dir(temp_root, app.as_str())
    }

    /// The resolved devtools flag: the explicit value, or `false` when unset.
    pub fn get_devtools(&self) -> (r: bool)
        ensures
            r == resolved_devtools(self.options),
    {
        match self.options.devtools {
            Some(d) => d,
            None => false,
        }
    }
}

/// This library's version, as `get_lib_version` reports it.
pub open spec fn lib_version() -> Seq<char> {
    "0.1.0"@
}

/// A configuration with no explicit width or height materializes at the
/// documented default size of 800x600: any plan a window with an unset size
/// gives rise to carries exactly that size.
pub proof fn lemma_unset_size_materializes_default(
    plan: MaterializePlan,
    w: Window,
    temp_root: Seq<char>,
)
    requires
        w.options.width is None,
        w.options.height is None,
        plan_matches(plan, w, temp_root),
    ensures
        plan.width == crate::options::DEFAULT_WIDTH,
        plan.height == crate::options::DEFAULT_HEIGHT,
{
}

/// Staging is last-write-wins, independent of the request's kind: on an
/// unmaterialized window, a URL load followed by an HTML load leaves only the
/// HTML request pending, and an HTML load followed by a URL load leaves only
/// the URL pending.
pub proof fn lemma_staging_last_write_wins(w: Window, url: String, html: String)
    requires
        !w.is_live(),
    ensures
        stage_html_spec(stage_url_spec(w, url).0, html).0.pending()
            == Some(ContentRequest::Html(html)),
        stage_url_spec(stage_html_spec(w, html).0, url).0.pending()
            == Some(ContentRequest::Url(url)),
{
}

/// A title staged before materialization is the title the window
/// materializes with: any plan drawn from the window after the title update
/// carries the staged value, not the one the window was constructed with.
pub proof fn lemma_staged_title_materializes(
    w: Window,
    title: String,
    plan: MaterializePlan,
    temp_root: Seq<char>,
)
    requires
        !w.is_live(),
        plan_matches(plan, set_title_spec(w, title).0, temp_root),
    ensures
        plan.title@ == title@,
{
}

/// A content load on a live window forwards at once and stages nothing: the
/// window, including its pending slot, is left exactly as it was, and the
/// navigation command comes back for the shell to perform.
pub proof fn lemma_live_load_forwards_without_staging(w: Window, url: String, html: String)
    requires
        w.is_live(),
    ensures
        stage_url_spec(w, url) == (w, Some(SurfaceCommand::LoadUrl(url))),
        stage_html_spec(w, html) == (w, Some(SurfaceCommand::LoadHtml(html))),
{
}

/// The storage context path is a pure function of the app name alone, under
/// the process's one temp root: two windows whose configurations resolve to
/// the same app name resolve to the same storage directory.
pub proof fn lemma_storage_context_pure(w1: Window, w2: Window, temp_root: Seq<char>)
    requires
        resolved_app_name(w1.options) == resolved_app_name(w2.options),
    ensures
        storage_dir_spec(temp_root, resolved_app_name(w1.options))
            == storage_dir_spec(temp_root, resolved_app_name(w2.options)),
{
}

/// Materialization is one-time: a successful materialization leaves the
/// window live with nothing pending, and on a live window `create` (by its
/// contract) deterministically fails with `AlreadyMaterialized`, changing
/// nothing.
pub proof fn lemma_second_materialize_fails(w: Window)
    requires
        !w.is_live(),
    ensures
        after_materialize(w).is_live(),
        after_materialize(w).pending() is None,
        after_materialize(w).options == w.options,
{
}

} // verus!
