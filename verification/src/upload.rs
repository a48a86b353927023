use vstd::prelude::*;
use crate::app::{App, AppState, AppView, Effect, EffectView};
use crate::ui::upload_name;
use crate::items::{Ingredient, ingredients_view};
use crate::list::names;

verus! {

/// The body of the request that creates a task list.
pub struct GoogleTasksListName {
    pub title: String,
}

/// The part of the answer to that request that the upload reads.
pub struct GoogleTaskListResponse {
    pub id: String,
}

/// The body of the request that adds a task to a list.
pub struct GoogleTasksListItem {
    pub title: String,
}

/// The outcome of a login, as plain values.
pub open spec fn login_view(r: Result<(), String>) -> Result<(), Seq<char>> {
    match r {
        Ok(()) => Ok(()),
        Err(e) => Err(e@),
    }
}

/// Text pasted from the clipboard, or why it could not be, as plain values.
pub open spec fn paste_view(r: Result<String, String>) -> Result<Seq<char>, Seq<char>> {
    match r {
        Ok(s) => Ok(s@),
        Err(e) => Err(e@),
    }
}

/// The titles of the tasks that uploading a shopping list creates, in the
/// order they are sent: the item names, last item first.
pub fn task_titles(shopping_list: &Vec<Ingredient>) -> (r: Vec<String>)
    ensures
        r@.map_values(|t: String| t@) == names(ingredients_view(shopping_list@)).reverse(),
{
    let ghost ns = names(ingredients_view(shopping_list@));
    let n = shopping_list.len();
    let mut r: Vec<String> = Vec::new();
    let mut k = n;
    while k > 0
        invariant
            k <= n,
            n == shopping_list.len(),
            ns == names(ingredients_view(shopping_list@)),
            r@.map_values(|t: String| t@) == ns.reverse().take((n - k) as int),
        decreases k,
    {
        let ghost prev = r@;
        let t = shopping_list[k - 1].name.clone();
        r.push(t);
        proof {
            assert(r@ == prev.push(t));
            assert(r@.map_values(|t: String| t@) =~= prev.map_values(|t: String| t@).push(t@));
            assert(ns.reverse().take((n - k + 1) as int) =~= ns.reverse().take((n - k) as int).push(ns[k - 1]));
        }
        k = k - 1;
    }
    assert(ns.reverse().take(n as int) =~= ns.reverse());
    r
}

impl AppView {
    /// The state after starting the first login to the upload service.
    pub open spec fn after_upload_first_login(self) -> AppView {
        AppView { state: AppState::UploadWaitingForLoginUrl, ..self.with_effect(EffectView::StartLogin) }
    }

    /// The state after sending the typed login code.
    pub open spec fn after_send_code(self) -> AppView {
        AppView {
            input: Seq::empty(),
            state: AppState::UploadLogginginWait,
            ..self.with_effect(EffectView::SendCode(self.input))
        }
    }

    /// The state after starting the upload of the shopping list.
    pub open spec fn after_init_upload_list(self) -> AppView {
        AppView { state: AppState::Uploading, ..self.with_effect(EffectView::StartUpload) }
    }

    /// The state after the login address arrived.
    pub open spec fn after_login_url(self, url: Seq<char>) -> AppView {
        if self.state == AppState::UploadWaitingForLoginUrl {
            AppView { login_url: Some(url), state: AppState::UploadShowLoginUrl, ..self }
        } else {
            self
        }
    }

    /// The state after the login ended, on `date`.
    pub open spec fn after_login(self, result: Result<(), Seq<char>>, date: Seq<char>) -> AppView {
        if self.state == AppState::UploadLogginginWait {
            match result {
                Ok(()) => AppView { input: upload_name(date), state: AppState::UploadMenu, ..self },
                Err(e) => AppView { err_msg: Some(e), state: AppState::Error, ..self },
            }
        } else {
            self
        }
    }

    /// The state after the upload failed with `e`.
    pub open spec fn after_upload_error(self, e: Seq<char>) -> AppView {
        if self.state == AppState::Uploading {
            AppView { err_msg: Some(e), state: AppState::Error, ..self }
        } else {
            self
        }
    }

    /// The state after the upload reported its progress.
    pub open spec fn after_upload_progress(self, done: bool) -> AppView {
        if self.state == AppState::Uploading && done {
            AppView { state: AppState::UploadDone, ..self }
        } else {
            self
        }
    }

    /// The state after pasting the login code from the clipboard.
    pub open spec fn after_paste(self, r: Result<Seq<char>, Seq<char>>) -> AppView {
        match r {
            Ok(s) => AppView { input: s, ..self },
            Err(e) => AppView { err_msg: Some(e), ..self },
        }
    }
}

impl App {
    /// Starts the first login to the upload service.
    pub fn upload_first_login(&mut self)
        requires
            old(self)@.wf(),
        ensures
            final(self)@.wf(),
            final(self)@ == old(self)@.after_upload_first_login(),
    {
        self.emit(Effect::StartLogin);
        self.state = AppState::UploadWaitingForLoginUrl;
    }

    /// Sends the typed login code to the login under way.
    pub fn send_code(&mut self)
        requires
            old(self)@.wf(),
        ensures
            final(self)@.wf(),
            final(self)@ == old(self)@.after_send_code(),
    {
        let code = self.input.clone();
        self.emit(Effect::SendCode(code));
        self.input = String::new();
        self.state = AppState::UploadLogginginWait;
    }

    /// Starts uploading the shopping list under the typed name.
    pub fn init_upload_list(&mut self)
        requires
            old(self)@.wf(),
        ensures
            final(self)@.wf(),
            final(self)@ == old(self)@.after_init_upload_list(),
    {
        self.state = AppState::Uploading;
        self.emit(Effect::StartUpload);
    }

    /// The login address arrived: shows it, while waiting for it.
    pub fn login_url_received(&mut self, url: String)
        requires
            old(self)@.wf(),
        ensures
            final(self)@.wf(),
            final(self)@ == old(self)@.after_login_url(url@),
    {
        if self.state == AppState::UploadWaitingForLoginUrl {
            self.login_url = Some(url);
            self.state = AppState::UploadShowLoginUrl;
        }
    }

    /// The login ended: on success the upload menu opens with a list named
    /// after `date`; on failure the error is shown.
    pub fn login_finished(&mut self, result: Result<(), String>, date: &str)
        requires
            old(self)@.wf(),
        ensures
            final(self)@.wf(),
            final(self)@ == old(self)@.after_login(login_view(result), date@),
    {
        if self.state == AppState::UploadLogginginWait {
            match result {
                Ok(()) => {
                    let mut name = "Shopping List ".to_owned();
                    name.append(date);
                    self.input = name;
                    self.state = AppState::UploadMenu;
                },
                Err(e) => {
                    self.err_msg = Some(e);
                    self.state = AppState::Error;
                },
            }
        }
    }

    /// The upload failed: the error is shown.
    pub fn upload_failed(&mut self, e: String)
        requires
            old(self)@.wf(),
        ensures
            final(self)@.wf(),
            final(self)@ == old(self)@.after_upload_error(e@),
    {
        if self.state == AppState::Uploading {
            self.err_msg = Some(e);
            self.state = AppState::Error;
        }
    }

    /// The upload reported its progress; once it is done, says so.
    pub fn upload_progress(&mut self, done: bool)
        requires
            old(self)@.wf(),
        ensures
            final(self)@.wf(),
            final(self)@ == old(self)@.after_upload_progress(done),
    {
        if self.state == AppState::Uploading && done {
            self.state = AppState::UploadDone;
        }
    }

    /// The login code pasted from the clipboard becomes the input; a paste
    /// that failed is shown as the error.
    pub fn pasted_login_code(&mut self, r: Result<String, String>)
        requires
            old(self)@.wf(),
        ensures
            final(self)@.wf(),
            final(self)@ == old(self)@.after_paste(paste_view(r)),
    {
        match r {
            Ok(s) => self.input = s,
            Err(e) => self.err_msg = Some(e),
        }
    }
}

} // verus!
