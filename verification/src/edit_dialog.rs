//! The property edit dialog: loading the record, submitting the form, and
//! what the dialog shows in each state.

use vstd::prelude::*;
use crate::properties::{EditableProperty, PropertyMap, PropertyValue, ValueView};
use crate::text::opt_text;

verus! {

/// Properties of the dialog. Its callbacks are recorded as present or
/// absent; what they do happens outside this crate.
pub struct EditDialog {
    pub title: String,
    pub advanced_checkbox: bool,
    pub has_loader: bool,
    pub submit_text: Option<String>,
    /// Send the record's digest along (default on).
    pub submit_digest: bool,
    pub has_on_close: bool,
    pub has_on_done: bool,
    pub has_on_submit: bool,
    pub has_on_change: bool,
    /// The loaded data passes through a load hook.
    pub has_load_hook: bool,
    /// The data to submit is built by a submit hook.
    pub has_submit_hook: bool,
    /// What draws the form.
    pub renderer: FormRenderer,
    /// Whether the dialog edits an existing record; by default it does when
    /// it has a loader.
    pub edit: Option<bool>,
}

/// What draws a dialog's form.
#[derive(Clone, Copy, Debug, PartialEq, Eq, Structural)]
pub enum FormRenderer {
    /// No renderer: the form is empty.
    Absent,
    /// An input panel: the edited property's, or the dialog's own.
    InputPanel,
    /// A renderer that draws nothing (a property without input panel).
    Empty,
}

/// The dialog edits an existing record.
pub open spec fn edit_mode(d: EditDialog) -> bool {
    match d.edit {
        Some(e) => e,
        None => d.has_loader,
    }
}

impl EditDialog {
    /// A dialog with a title and nothing else set: digest on.
    pub fn new(title: String) -> (d: Self)
        ensures
            d.title@ == title@,
            !d.advanced_checkbox && !d.has_loader && d.submit_text is None && d.submit_digest,
            !d.has_on_close && !d.has_on_done && !d.has_on_submit && !d.has_on_change,
            !d.has_load_hook && !d.has_submit_hook,
            d.renderer == FormRenderer::Absent,
            d.edit is None,
    {
        EditDialog {
            title,
            advanced_checkbox: false,
            has_loader: false,
            submit_text: None,
            submit_digest: true,
            has_on_close: false,
            has_on_done: false,
            has_on_submit: false,
            has_on_change: false,
            has_load_hook: false,
            has_submit_hook: false,
            renderer: FormRenderer::Absent,
            edit: None,
        }
    }

    /// The dialog of a property: its title, advanced checkbox, load and
    /// submit hooks and change callback; its form is the property's input
    /// panel, or empty where it has none. Loader and submit callback are
    /// left to the caller.
    pub fn from_property(p: &EditableProperty) -> (d: Self)
        ensures
            d.title@ == p.title@,
            d.advanced_checkbox == p.advanced_checkbox,
            d.has_load_hook == p.has_load_hook,
            d.has_submit_hook == p.has_submit_hook,
            d.has_on_change == p.has_on_change,
            d.renderer == (if p.has_input_panel { FormRenderer::InputPanel } else { FormRenderer::Empty }),
            !d.has_loader && d.submit_text is None && d.submit_digest,
            !d.has_on_close && !d.has_on_done && !d.has_on_submit,
            d.edit is None,
    {
        let mut d = EditDialog::new(p.title.clone());
        d.advanced_checkbox = p.advanced_checkbox;
        d.has_load_hook = p.has_load_hook;
        d.has_submit_hook = p.has_submit_hook;
        d.has_on_change = p.has_on_change;
        d.renderer = if p.has_input_panel {
            FormRenderer::InputPanel
        } else {
            FormRenderer::Empty
        };
        d
    }

    /// Whether the dialog edits an existing record.
    pub fn is_edit(&self) -> (r: bool)
        ensures
            r == edit_mode(*self),
    {
        match self.edit {
            Some(e) => e,
            None => self.has_loader,
        }
    }
}

/// The loaded record with the digest the answer carried, where the dialog
/// sends it along.
pub open spec fn record_with_digest(data: Map<Seq<char>, ValueView>, digest: Option<Seq<char>>, submit_digest: bool) -> Map<Seq<char>, ValueView> {
    match digest {
        Some(d) => if submit_digest {
            data.insert("digest"@, ValueView::Text(d))
        } else {
            data
        },
        None => data,
    }
}

/// Adds the digest of a load answer to the record, where the dialog sends
/// it along.
pub fn add_digest(data: &mut PropertyMap, digest: Option<String>, submit_digest: bool)
    ensures
        final(data)@ == record_with_digest(old(data)@, opt_text(digest), submit_digest),
{
    match digest {
        Some(d) => {
            if submit_digest {
                data.insert(String::from_str("digest"), PropertyValue::Text(d));
            }
        },
        None => {},
    }
}

/// Events of the dialog.
pub enum Msg {
    FormDataChange,
    Submit,
    /// The data to submit, built by the submit hook or taken from the
    /// form, or the hook's error.
    SubmitData(Result<PropertyMap, String>),
    SubmitResult(Result<(), String>),
    ClearSubmitError,
    Load,
    /// The loader's answer: the record and the digest it carried, or the
    /// error.
    LoadResult(Result<(PropertyMap, Option<String>), String>),
    /// What the load hook made of the record, or its error.
    LoadHookResult(Result<PropertyMap, String>),
    ShowAdvanced(bool),
    /// The user closes or aborts the dialog (or the load error alert).
    Close,
}

/// What the dialog asks for after an event.
pub enum DialogAction {
    Idle,
    /// Run the loader and deliver the answer as `LoadResult`.
    StartLoad,
    /// Pass the record to the load hook and deliver its outcome as
    /// `LoadHookResult`.
    RunLoadHook(PropertyMap),
    /// Fill the form from the loaded record.
    LoadForm,
    /// Hand the form state to the change callback.
    EmitChange,
    /// Build the data to submit: with the submit hook (given the form and
    /// `load_data`) where `hook` is set, else the form's submit data; deliver
    /// it as `SubmitData`.
    StartSubmit { hook: bool },
    /// Apply the submit callback once to this data and deliver the outcome
    /// as `SubmitResult`.
    ApplySubmit(PropertyMap),
    /// Call `on_done`.
    Done,
    /// Call `on_close` (where `on_close` is set), then `on_done` (where
    /// `on_done` is set), each once.
    Closed { on_close: bool, on_done: bool },
    /// Show (or hide) advanced fields and keep the choice.
    SetShowAdvanced(bool),
}

/// State of the dialog.
pub struct PwtEditDialog {
    pub loading: bool,
    pub submit_error: Option<String>,
    pub load_data: PropertyMap,
    pub load_error: Option<String>,
    pub show_advanced: bool,
}

/// What the dialog shows.
pub struct DialogView {
    /// Only an alert with the load error.
    pub load_error_alert: Option<String>,
    pub advanced_checkbox: bool,
    /// The Advanced checkbox is checked.
    pub advanced_checked: bool,
    pub reset_button: bool,
    /// A hidden digest field is submitted.
    pub digest_field: bool,
    pub submit_text: String,
    /// The submit button waits for a change.
    pub check_dirty: bool,
    /// The form is hidden behind the progress bar.
    pub form_hidden: bool,
    /// The dialog can be closed.
    pub closable: bool,
    /// An alert with the submit error.
    pub submit_alert: Option<String>,
}

/// The text of the submit button: the given text, else "Update" where
/// the dialog has a loader and "Add" where it has none.
pub open spec fn submit_label(props: EditDialog) -> Seq<char> {
    match props.submit_text {
        Some(t) => t@,
        None => if props.has_loader { "Update"@ } else { "Add"@ },
    }
}

impl PwtEditDialog {
    /// The dialog as it opens, with the kept choice of advanced fields; it
    /// then loads.
    pub fn create(show_advanced: bool) -> (d: Self)
        ensures
            !d.loading,
            d.submit_error is None,
            d.load_error is None,
            d.load_data@ == Map::<Seq<char>, ValueView>::empty(),
            d.show_advanced == show_advanced,
    {
        PwtEditDialog {
            loading: false,
            submit_error: None,
            load_data: PropertyMap::new(),
            load_error: None,
            show_advanced,
        }
    }

    /// Handles one event. Loading and submitting set `loading` until their
    /// result. The loaded record gets its digest (where sent along) and
    /// passes the load hook where there is one; a load error (of the loader
    /// or the hook) replaces the dialog by an alert. A submit builds its data
    /// (by the submit hook where there is one); a hook error ends the submit
    /// without calling the submit callback. A submit error is shown until
    /// cleared or the form changes; a successful submit finishes the dialog.
    /// Closing calls `on_close`, then `on_done`.
    pub fn update(&mut self, props: &EditDialog, msg: Msg) -> (a: DialogAction)
        ensures
            match msg {
                Msg::ShowAdvanced(b) => a == DialogAction::SetShowAdvanced(b) && final(self).show_advanced == b,
                _ => final(self).show_advanced == old(self).show_advanced,
            },
            match msg {
                Msg::ClearSubmitError => a is Idle && final(self).submit_error is None && final(self).loading == old(self).loading,
                Msg::Load => if props.has_loader {
                    a is StartLoad && final(self).loading
                } else {
                    a is Idle && final(self).loading == old(self).loading
                },
                Msg::LoadResult(Err(e)) => a is Idle && !final(self).loading && opt_text(final(self).load_error) == Some(e@),
                Msg::LoadResult(Ok((r, digest))) => !final(self).loading && opt_text(final(self).load_error) == opt_text(old(self).load_error)
                    && if props.has_load_hook {
                        a matches DialogAction::RunLoadHook(m) && m@ == record_with_digest(r@, opt_text(digest), props.submit_digest)
                            && final(self).load_data@ == old(self).load_data@
                    } else {
                        a is LoadForm && final(self).load_data@ == record_with_digest(r@, opt_text(digest), props.submit_digest)
                    },
                Msg::LoadHookResult(Ok(r)) => a is LoadForm && final(self).load_data@ == r@
                    && opt_text(final(self).load_error) == opt_text(old(self).load_error) && final(self).loading == old(self).loading,
                Msg::LoadHookResult(Err(e)) => a is Idle && opt_text(final(self).load_error) == Some(e@)
                    && final(self).loading == old(self).loading,
                Msg::FormDataChange => (if props.has_on_change { a is EmitChange } else { a is Idle })
                    && final(self).submit_error is None && final(self).loading == old(self).loading,
                Msg::Submit => if props.has_on_submit {
                    a == (DialogAction::StartSubmit { hook: props.has_submit_hook }) && final(self).loading
                } else {
                    a is Idle && final(self).loading == old(self).loading
                },
                Msg::SubmitData(Ok(d)) => a matches DialogAction::ApplySubmit(m) && m@ == d@
                    && final(self).loading == old(self).loading,
                Msg::SubmitData(Err(e)) => a is Idle && !final(self).loading && opt_text(final(self).submit_error) == Some(e@),
                Msg::SubmitResult(Ok(())) => (if props.has_on_done { a is Done } else { a is Idle })
                    && !final(self).loading && final(self).submit_error is None,
                Msg::SubmitResult(Err(e)) => a is Idle && !final(self).loading && opt_text(final(self).submit_error) == Some(e@),
                Msg::ShowAdvanced(_) => final(self).loading == old(self).loading,
                Msg::Close => (if props.has_on_close || props.has_on_done {
                    a == (DialogAction::Closed { on_close: props.has_on_close, on_done: props.has_on_done })
                } else {
                    a is Idle
                }) && final(self).loading == old(self).loading,
            },
            match msg {
                Msg::LoadResult(Ok(_)) | Msg::LoadHookResult(Ok(_)) => true,
                _ => final(self).load_data@ == old(self).load_data@,
            },
            match msg {
                Msg::LoadResult(Err(_)) | Msg::LoadHookResult(Err(_)) => true,
                _ => opt_text(final(self).load_error) == opt_text(old(self).load_error),
            },
            match msg {
                Msg::ClearSubmitError | Msg::FormDataChange | Msg::SubmitResult(_) | Msg::SubmitData(Err(_)) => true,
                _ => opt_text(final(self).submit_error) == opt_text(old(self).submit_error),
            },
    {
        match msg {
            Msg::ShowAdvanced(b) => {
                self.show_advanced = b;
                DialogAction::SetShowAdvanced(b)
            },
            Msg::ClearSubmitError => {
                self.submit_error = None;
                DialogAction::Idle
            },
            Msg::Load => {
                if props.has_loader {
                    self.loading = true;
                    DialogAction::StartLoad
                } else {
                    DialogAction::Idle
                }
            },
            Msg::LoadResult(result) => {
                self.loading = false;
                match result {
                    Err(e) => {
                        self.load_error = Some(e);
                        DialogAction::Idle
                    },
                    Ok((record, digest)) => {
                        let mut record = record;
                        add_digest(&mut record, digest, props.submit_digest);
                        if props.has_load_hook {
                            DialogAction::RunLoadHook(record)
                        } else {
                            self.load_data = record;
                            DialogAction::LoadForm
                        }
                    },
                }
            },
            Msg::LoadHookResult(result) => match result {
                Err(e) => {
                    self.load_error = Some(e);
                    DialogAction::Idle
                },
                Ok(record) => {
                    self.load_data = record;
                    DialogAction::LoadForm
                },
            },
            Msg::FormDataChange => {
                self.submit_error = None;
                if props.has_on_change {
                    DialogAction::EmitChange
                } else {
                    DialogAction::Idle
                }
            },
            Msg::Submit => {
                if props.has_on_submit {
                    self.loading = true;
                    DialogAction::StartSubmit { hook: props.has_submit_hook }
                } else {
                    DialogAction::Idle
                }
            },
            Msg::SubmitData(data) => match data {
                Ok(d) => DialogAction::ApplySubmit(d),
                Err(e) => {
                    self.loading = false;
                    self.submit_error = Some(e);
                    DialogAction::Idle
                },
            },
            Msg::SubmitResult(result) => {
                self.loading = false;
                match result {
                    Ok(()) => {
                        self.submit_error = None;
                        if props.has_on_done {
                            DialogAction::Done
                        } else {
                            DialogAction::Idle
                        }
                    },
                    Err(e) => {
                        self.submit_error = Some(e);
                        DialogAction::Idle
                    },
                }
            },
            Msg::Close => {
                if props.has_on_close || props.has_on_done {
                    DialogAction::Closed { on_close: props.has_on_close, on_done: props.has_on_done }
                } else {
                    DialogAction::Idle
                }
            },
        }
    }

    /// What the dialog shows: after a load error only an alert; otherwise
    /// the form with the Advanced checkbox (where asked for, checked as
    /// kept), reset (when editing), a hidden digest (when loading and sending
    /// digests), the submit button ("Update" where there is a loader, else
    /// "Add", unless a text is given), hidden while loading.
    pub fn view(&self, props: &EditDialog) -> (v: DialogView)
        ensures
            opt_text(v.load_error_alert) == opt_text(self.load_error),
            v.advanced_checkbox == props.advanced_checkbox,
            v.advanced_checked == self.show_advanced,
            v.reset_button == edit_mode(*props),
            v.digest_field == (props.submit_digest && props.has_loader),
            v.submit_text@ == submit_label(*props),
            v.check_dirty == edit_mode(*props),
            v.form_hidden == self.loading,
            v.closable == (props.has_on_close || props.has_on_done),
            opt_text(v.submit_alert) == opt_text(self.submit_error),
    {
        let edit = props.is_edit();
        let submit_text = match &props.submit_text {
            Some(t) => t.clone(),
            None => if props.has_loader {
                String::from_str("Update")
            } else {
                String::from_str("Add")
            },
        };
        DialogView {
            load_error_alert: self.load_error.clone(),
            advanced_checkbox: props.advanced_checkbox,
            advanced_checked: self.show_advanced,
            reset_button: edit,
            digest_field: props.submit_digest && props.has_loader,
            submit_text,
            check_dirty: edit,
            form_hidden: self.loading,
            closable: props.has_on_close || props.has_on_done,
            submit_alert: self.submit_error.clone(),
        }
    }
}

} // verus!
