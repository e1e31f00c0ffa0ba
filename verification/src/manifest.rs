//! The add-in manifest: the file that tells Revit where an add-in's library
//! is and who made it. This module decides when the file has to be written
//! anew, gathers what goes into it, and lays out its text.

use crate::locator::DirListing;
use crate::project::{get_project_info, is_project_info, ProjectInfo};
use crate::state::State;
use crate::text::{contains, has_substring, joined, texts};
use vstd::prelude::*;
use vstd::string::*;

verus! {

/// What a manifest says of an add-in.
#[derive(Debug)]
pub struct AddinFileInfo {
    pub name: String,
    /// The add-in's library, relative to the directory of the manifest.
    pub assembly: String,
    /// The identifier that tells this add-in from every other.
    pub addin_id: String,
    pub full_class_name: String,
    pub vendor_id: String,
    pub vendor_description: String,
    pub vendor_email: String,
}

/// A manifest's fields as texts.
pub struct AddinFileInfoView {
    pub name: Seq<char>,
    pub assembly: Seq<char>,
    pub addin_id: Seq<char>,
    pub full_class_name: Seq<char>,
    pub vendor_id: Seq<char>,
    pub vendor_description: Seq<char>,
    pub vendor_email: Seq<char>,
}

impl View for AddinFileInfo {
    type V = AddinFileInfoView;

    open spec fn view(&self) -> AddinFileInfoView {
        AddinFileInfoView {
            name: self.name@,
            assembly: self.assembly@,
            addin_id: self.addin_id@,
            full_class_name: self.full_class_name@,
            vendor_id: self.vendor_id@,
            vendor_description: self.vendor_description@,
            vendor_email: self.vendor_email@,
        }
    }
}

impl Clone for AddinFileInfo {
    fn clone(&self) -> (copy: Self)
        ensures
            copy@ == self@,
    {
        AddinFileInfo {
            name: self.name.clone(),
            assembly: self.assembly.clone(),
            addin_id: self.addin_id.clone(),
            full_class_name: self.full_class_name.clone(),
            vendor_id: self.vendor_id.clone(),
            vendor_description: self.vendor_description.clone(),
            vendor_email: self.vendor_email.clone(),
        }
    }
}

/// Whether a manifest's text shows that nobody filled it in: it still holds
/// the template's title, its example address or its stand-in description.
/// One of them is enough, and upper and lower case are told apart.
pub open spec fn is_template(contents: Seq<char>) -> bool {
    ||| has_substring(contents, "Template Plugin"@)
    ||| has_substring(contents, "youremail@example.com"@)
    ||| has_substring(contents, "Insert description here"@)
}

/// Whether the manifest has to be written anew: there is no file, or its
/// text is that of a template. A file without any of the template's marks
/// is kept as it is, whatever else it holds.
pub fn is_addin_file_a_template_or_missing(contents: Option<&str>) -> (b: bool)
    ensures
        b == (match contents {
            None => true,
            Some(text) => is_template(text@),
        }),
{
    match contents {
        None => true,
        Some(text) => contains(text, "Template Plugin") || contains(text, "youremail@example.com")
            || contains(text, "Insert description here"),
    }
}

/// One element of the manifest on a line of its own.
pub open spec fn element_text(tag: Seq<char>, value: Seq<char>) -> Seq<char> {
    "\t\t<"@ + tag + ">"@ + value + "</"@ + tag + ">\n"@
}

/// The text of a manifest: the head, the seven elements in their fixed order,
/// and the tail.
pub open spec fn manifest_text(info: AddinFileInfoView) -> Seq<char> {
    "<?xml version=\"1.0\" encoding=\"utf-8\"?>\n<RevitAddIns>\n\t<AddIn Type=\"Application\">\n"@
        + element_text("Name"@, info.name) + element_text("Assembly"@, info.assembly)
        + element_text("AddInId"@, info.addin_id) + element_text(
        "FullClassName"@,
        info.full_class_name,
    ) + element_text("VendorId"@, info.vendor_id) + element_text(
        "VendorDescription"@,
        info.vendor_description,
    ) + element_text("VendorEmail"@, info.vendor_email) + "\t</AddIn>\n</RevitAddIns>\n"@
}

/// Appends one element to `out`.
fn push_element(out: &mut String, tag: &str, value: &str)
    ensures
        final(out)@ == old(out)@ + element_text(tag@, value@),
{
    out.append("\t\t<");
    out.append(tag);
    out.append(">");
    out.append(value);
    out.append("</");
    out.append(tag);
    out.append(">\n");
    assert(out@ =~= old(out)@ + element_text(tag@, value@));
}

/// Lays out the text of the manifest for `info`.
pub fn create_addin_file(info: &AddinFileInfo) -> (text: String)
    ensures
        text@ == manifest_text(info@),
{
    let mut text =
        "<?xml version=\"1.0\" encoding=\"utf-8\"?>\n<RevitAddIns>\n\t<AddIn Type=\"Application\">\n".to_owned();
    push_element(&mut text, "Name", info.name.as_str());
    push_element(&mut text, "Assembly", info.assembly.as_str());
    push_element(&mut text, "AddInId", info.addin_id.as_str());
    push_element(&mut text, "FullClassName", info.full_class_name.as_str());
    push_element(&mut text, "VendorId", info.vendor_id.as_str());
    push_element(&mut text, "VendorDescription", info.vendor_description.as_str());
    push_element(&mut text, "VendorEmail", info.vendor_email.as_str());
    text.append("\t</AddIn>\n</RevitAddIns>\n");
    text
}

/// Why a manifest could not be read.
#[derive(Debug)]
pub enum GetAddinFileInfoError {
    FileNotFound,
    FailedToOpenFile(String),
    FailedToReadFile(String),
    FailedToParseXml(String),
}

/// What came of reading a manifest from disk.
#[derive(Debug)]
pub enum ManifestRead {
    /// There is no such file.
    Missing,
    /// The file is there and could not be opened; with the system's reason.
    Unopened(String),
    /// The file was opened and its text could not be read.
    Unread(String),
    /// The text is no manifest; with the parser's reason.
    Malformed(String),
    Parsed(AddinFileInfo),
}

/// What a manifest holds, or why it could not be had.
pub fn get_addin_file_info(read: ManifestRead) -> (r: Result<AddinFileInfo, GetAddinFileInfoError>)
    ensures
        match read {
            ManifestRead::Missing => r matches Err(GetAddinFileInfoError::FileNotFound),
            ManifestRead::Unopened(why) => r matches Err(GetAddinFileInfoError::FailedToOpenFile(e))
                && e@ == why@,
            ManifestRead::Unread(why) => r matches Err(GetAddinFileInfoError::FailedToReadFile(e))
                && e@ == why@,
            ManifestRead::Malformed(why) => r matches Err(GetAddinFileInfoError::FailedToParseXml(e))
                && e@ == why@,
            ManifestRead::Parsed(info) => r matches Ok(got) && got@ == info@,
        },
{
    match read {
        ManifestRead::Missing => Err(GetAddinFileInfoError::FileNotFound),
        ManifestRead::Unopened(why) => Err(GetAddinFileInfoError::FailedToOpenFile(why)),
        ManifestRead::Unread(why) => Err(GetAddinFileInfoError::FailedToReadFile(why)),
        ManifestRead::Malformed(why) => Err(GetAddinFileInfoError::FailedToParseXml(why)),
        ManifestRead::Parsed(info) => Ok(info),
    }
}

/// Calls `uuid::Uuid::new_v4` and writes the identifier out in the crate's
/// usual form. The identifier is random; of its text only the length is
/// claimed, which the crate fixes for that form.
#[verifier::external_body]
pub(crate) fn fresh_addin_id() -> (id: String)
    ensures
        id@.len() == 36,
{
    uuid::Uuid::new_v4().to_string()
}

/// A question to the user. An empty answer stands for `default`; without a
/// default it is no answer.
#[derive(Debug)]
pub struct Question {
    pub prompt: String,
    pub default: Option<String>,
}

/// The answer that `input` gives to `question`, or none where the question
/// has to be asked again. `input` is what the user typed, without the white
/// space around it.
pub fn accept_answer(question: &Question, input: &str) -> (r: Option<String>)
    ensures
        match r {
            Some(answer) => answer@ == (if input@.len() > 0 {
                input@
            } else {
                question.default->0@
            }) && (input@.len() > 0 || question.default is Some),
            None => input@.len() == 0 && question.default is None,
        },
{
    if !input.is_empty() {
        Some(input.to_owned())
    } else {
        match &question.default {
            Some(d) => Some(d.clone()),
            None => None,
        }
    }
}

/// How many questions are asked for a manifest.
pub const QUESTIONS: usize = 4;

/// Whether `questions` are the questions for a manifest, for a user whose
/// preferences are `state`.
pub open spec fn is_questionnaire(questions: Seq<Question>, state: State) -> bool {
    &&& questions.len() == QUESTIONS
    &&& questions[0].prompt@ == "Enter the name of your addin"@
    &&& questions[0].default is None
    &&& questions[1].prompt@ == "Enter your vendor ID"@
    &&& questions[1].default matches Some(d) && d@ == "Development"@
    &&& questions[2].prompt@ == "Enter a description of your add-in"@
    &&& questions[2].default is None
    &&& questions[3].prompt@ == "Enter your work email address"@
    &&& match questions[3].default {
        Some(d) => state@.email_address.len() > 0 && d@ == state@.email_address,
        None => state@.email_address.len() == 0,
    }
}

/// The questions for a manifest, in the order in which they are asked: the
/// add-in's name, the vendor's identifier, a description, and the vendor's
/// e-mail address, for which the remembered address is the default where
/// there is one.
pub fn manifest_questions(state: &State) -> (questions: Vec<Question>)
    ensures
        is_questionnaire(questions@, *state),
{
    let mut questions: Vec<Question> = Vec::new();
    questions.push(Question { prompt: "Enter the name of your addin".to_owned(), default: None });
    questions.push(
        Question {
            prompt: "Enter your vendor ID".to_owned(),
            default: Some("Development".to_owned()),
        },
    );
    questions.push(
        Question { prompt: "Enter a description of your add-in".to_owned(), default: None },
    );
    let remembered = if !state.email_address.as_str().is_empty() {
        Some(state.email_address.clone())
    } else {
        None
    };
    questions.push(
        Question { prompt: "Enter your work email address".to_owned(), default: remembered },
    );
    questions
}

/// The manifest of the project `project_name` with the user's `answers`,
/// given in the order of the questions, and the identifier `addin_id`.
pub open spec fn composed(project_name: Seq<char>, answers: Seq<Seq<char>>, addin_id: Seq<char>)
    -> AddinFileInfoView {
    AddinFileInfoView {
        name: answers[0],
        assembly: project_name + "\\"@ + project_name + ".dll"@,
        addin_id,
        full_class_name: project_name + ".App"@,
        vendor_id: answers[1],
        vendor_description: answers[2],
        vendor_email: answers[3],
    }
}

/// Puts a manifest together from the project's name, the answers to the
/// questions and an identifier.
pub fn compose_addin_info(project_name: &str, answers: &Vec<String>, addin_id: String) -> (info:
    Option<AddinFileInfo>)
    ensures
        match info {
            Some(info) => answers@.len() == QUESTIONS && info@ == composed(
                project_name@,
                texts(answers@),
                addin_id@,
            ),
            None => answers@.len() != QUESTIONS,
        },
{
    if answers.len() != QUESTIONS {
        return None;
    }
    let mut assembly = joined(project_name, "\\");
    assembly.append(project_name);
    assembly.append(".dll");
    Some(
        AddinFileInfo {
            name: answers[0].clone(),
            assembly,
            addin_id,
            full_class_name: joined(project_name, ".App"),
            vendor_id: answers[1].clone(),
            vendor_description: answers[2].clone(),
            vendor_email: answers[3].clone(),
        },
    )
}

/// Where a project's manifest lies: the directory of the project file and
/// the manifest's file name.
#[derive(Debug)]
pub struct ManifestFile {
    pub dir: String,
    pub file_name: String,
}

/// What reading a manifest gave.
#[derive(Debug)]
pub enum ManifestContents {
    /// There is no such file.
    Missing,
    /// The file is there and could not be read as text; with the system's
    /// reason.
    Unreadable(String),
    /// The file's text.
    Text(String),
}

/// Whether a manifest that was read has to be written anew: it is missing,
/// or its text is that of a template. One that could not be read is not
/// written over.
pub open spec fn is_stale(contents: ManifestContents) -> bool {
    match contents {
        ManifestContents::Missing => true,
        ManifestContents::Unreadable(_) => false,
        ManifestContents::Text(text) => is_template(text@),
    }
}

/// Whether a manifest that was read has to be written anew.
pub fn needs_regeneration(contents: &ManifestContents) -> (b: bool)
    ensures
        b == is_stale(*contents),
{
    match contents {
        ManifestContents::Missing => is_addin_file_a_template_or_missing(None),
        ManifestContents::Unreadable(_) => false,
        ManifestContents::Text(text) => is_addin_file_a_template_or_missing(Some(text.as_str())),
    }
}

/// What has been observed so far while a manifest is seen to.
#[derive(Debug)]
pub struct ManifestProgress {
    /// What reading the manifest gave, absent while it was not read.
    pub contents: Option<ManifestContents>,
    /// The stored preferences, or those of a first run where none are
    /// stored; absent while they were not loaded.
    pub preferences: Option<State>,
    /// The accepted answers to the questions, in their order.
    pub answers: Option<Vec<String>>,
    /// What came of writing the manifest; a failure with the system's reason.
    pub written: Option<Result<(), String>>,
}

impl ManifestProgress {
    /// The progress before anything was observed.
    pub fn new() -> (progress: Self)
        ensures
            progress.contents is None,
            progress.preferences is None,
            progress.answers is None,
            progress.written is None,
    {
        ManifestProgress { contents: None, preferences: None, answers: None, written: None }
    }
}

/// What is due next for the manifest.
#[derive(Debug)]
pub enum ManifestStep {
    /// Read the manifest.
    Read { file: ManifestFile },
    /// Load the stored preferences.
    LoadPreferences,
    /// Ask the user these questions.
    Ask { questions: Vec<Question> },
    /// Write `text` to the manifest and store `state`.
    Write { file: ManifestFile, text: String, state: State },
    /// The manifest is in place, or it could not be had.
    Done(Result<ManifestFile, String>),
}

/// How far the work on a manifest has come.
pub enum Stage {
    Unread,
    /// The file is there and could not be read.
    ReadFailed(Seq<char>),
    /// The file is there and no template: it stays as it is.
    Kept,
    /// The manifest is to be written anew and the preferences are not loaded.
    NoPreferences,
    Unanswered,
    Unwritten,
    Written,
    WriteFailed(Seq<char>),
}

/// Whether `file` is where the manifest of `project` lies: beside the
/// project file, under the project's name with the extension `.addin`.
pub open spec fn is_manifest_of(file: ManifestFile, project: ProjectInfo) -> bool {
    &&& file.dir@ == project.csproj_dir@
    &&& file.file_name@ == project.project_name@ + ".addin"@
}

/// How far `progress` has come.
pub open spec fn stage(progress: ManifestProgress) -> Stage {
    match progress.contents {
        None => Stage::Unread,
        Some(ManifestContents::Unreadable(why)) => Stage::ReadFailed(why@),
        Some(contents) => if !is_stale(contents) {
            Stage::Kept
        } else if progress.preferences is None {
            Stage::NoPreferences
        } else {
            match progress.answers {
                Some(answers) if answers@.len() == QUESTIONS => match progress.written {
                    None => Stage::Unwritten,
                    Some(Ok(_)) => Stage::Written,
                    Some(Err(e)) => Stage::WriteFailed(e@),
                },
                _ => Stage::Unanswered,
            }
        },
    }
}

/// Whether `text` is the manifest of the project `project_name` with the
/// given answers and some identifier of 36 characters.
pub open spec fn is_fresh_manifest(
    text: Seq<char>,
    project_name: Seq<char>,
    answers: Seq<Seq<char>>,
) -> bool {
    exists|id: Seq<char>|
        id.len() == 36 && text == #[trigger] manifest_text(composed(project_name, answers, id))
}

/// Whether `step` is what is due for the manifest of `project` after
/// `progress`.
pub open spec fn manifest_next(project: ProjectInfo, progress: ManifestProgress, step: ManifestStep)
    -> bool {
    match stage(progress) {
        Stage::Unread => step matches ManifestStep::Read { file } && is_manifest_of(file, project),
        Stage::ReadFailed(why) => step matches ManifestStep::Done(Err(e)) && e@ == why,
        Stage::Kept => step matches ManifestStep::Done(Ok(file)) && is_manifest_of(file, project),
        Stage::NoPreferences => step is LoadPreferences,
        Stage::Unanswered => step matches ManifestStep::Ask { questions } && is_questionnaire(
            questions@,
            progress.preferences->0,
        ),
        Stage::Unwritten => step matches ManifestStep::Write { file, text, state: kept }
            && is_manifest_of(file, project) && kept@.revit_version
            == progress.preferences->0@.revit_version && kept@.email_address
            == progress.answers->0@[3]@ && is_fresh_manifest(
            text@,
            project.project_name@,
            texts(progress.answers->0@),
        ),
        Stage::Written => step matches ManifestStep::Done(Ok(file)) && is_manifest_of(
            file,
            project,
        ),
        Stage::WriteFailed(why) => step matches ManifestStep::Done(Err(e)) && e@ == why,
    }
}

/// The next step for the manifest of `project`, given what was observed so
/// far.
///
/// The manifest lies beside the project file. It is read first. A file that
/// cannot be read is the failure of the whole. A file that is there and
/// bears none of the template's marks is kept untouched, and nothing else is
/// read for it. A missing file and a template are written anew: the stored
/// preferences are loaded, the user is asked, the answers are put together
/// with a fresh identifier, and the text is to be written, together with the
/// preferences, which from then on remember the e-mail address given. What
/// was written is not looked at again. A failure to write is the failure of
/// the whole.
pub fn next_manifest_step(project: &ProjectInfo, progress: &ManifestProgress) -> (r: ManifestStep)
    ensures
        manifest_next(*project, *progress, r),
{
    let file = ManifestFile {
        dir: project.csproj_dir.clone(),
        file_name: joined(project.project_name.as_str(), ".addin"),
    };
    let contents = match &progress.contents {
        None => {
            return ManifestStep::Read { file };
        },
        Some(contents) => contents,
    };
    match contents {
        ManifestContents::Unreadable(why) => {
            return ManifestStep::Done(Err(why.clone()));
        },
        _ => {},
    }
    if !needs_regeneration(contents) {
        return ManifestStep::Done(Ok(file));
    }
    let state = match &progress.preferences {
        None => {
            return ManifestStep::LoadPreferences;
        },
        Some(state) => state,
    };
    let answers = match &progress.answers {
        Some(answers) if answers.len() == QUESTIONS => answers,
        _ => {
            return ManifestStep::Ask { questions: manifest_questions(state) };
        },
    };
    match &progress.written {
        None => {
            let id = fresh_addin_id();
            match compose_addin_info(project.project_name.as_str(), answers, id) {
                Some(info) => {
                    let text = create_addin_file(&info);
                    let kept = State {
                        revit_version: state.revit_version.clone(),
                        email_address: answers[3].clone(),
                    };
                    assert(text@ == manifest_text(
                        composed(project.project_name@, texts(answers@), id@),
                    ));
                    assert(is_fresh_manifest(text@, project.project_name@, texts(answers@)));
                    ManifestStep::Write { file, text, state: kept }
                },
                None => ManifestStep::Ask { questions: manifest_questions(state) },
            }
        },
        Some(Ok(_)) => ManifestStep::Done(Ok(file)),
        Some(Err(e)) => ManifestStep::Done(Err(e.clone())),
    }
}

/// What holds of the step that is due for the manifest of the project below
/// `start`: without a project there is nothing to do but fail, in the words
/// of the search; else the step is that for the project found.
pub open spec fn manifest_due(start: DirListing, progress: ManifestProgress, step: ManifestStep)
    -> bool {
    exists|found: Result<ProjectInfo, String>| #[trigger]
        is_project_info(start, found) && (match found {
            Ok(project) => manifest_next(project, progress, step),
            Err(why) => step matches ManifestStep::Done(Err(e)) && e@ == why@,
        })
}

/// Sees to the manifest of the project below `start`, one step at a time:
/// given what was observed so far, says what is due next. The project is
/// looked for first; the rest is as `next_manifest_step` does it.
pub fn handle_addin_file(start: &DirListing, progress: &ManifestProgress) -> (r: ManifestStep)
    ensures
        manifest_due(*start, *progress, r),
{
    let found = get_project_info(start);
    let r = match &found {
        Ok(project) => next_manifest_step(project, progress),
        Err(why) => ManifestStep::Done(Err(why.clone())),
    };
    assert(is_project_info(*start, found));
    r
}

/// A manifest that still holds the template's example address is written
/// anew, whatever else it holds: it is never kept, and while it is not
/// written the step due leads to the writing.
pub proof fn lemma_placeholder_email_regenerates(
    project: ProjectInfo,
    progress: ManifestProgress,
    step: ManifestStep,
)
    requires
        progress.contents matches Some(ManifestContents::Text(text)) && has_substring(
            text@,
            "youremail@example.com"@,
        ),
        manifest_next(project, progress, step),
    ensures
        stage(progress) !is Kept,
        progress.written is None ==> step is LoadPreferences || step is Ask || step is Write,
{
}

/// A manifest that is there and bears none of the template's marks is kept,
/// whatever else was observed: nothing is loaded, nothing is asked and
/// nothing is written.
pub proof fn lemma_unmarked_file_untouched(
    project: ProjectInfo,
    progress: ManifestProgress,
    step: ManifestStep,
)
    requires
        progress.contents matches Some(ManifestContents::Text(text)) && !is_template(text@),
        manifest_next(project, progress, step),
    ensures
        step matches ManifestStep::Done(Ok(file)) && is_manifest_of(file, project),
{
}

} // verus!
