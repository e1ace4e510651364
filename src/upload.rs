use vstd::prelude::*;

use crate::boards::Board;
use crate::patches::{patch_marker, validate_patch_file_contents, DateTime, PatchMeta};
use crate::text::{ends_with, ends_with_text, occurs_in};

verus! {

/// Why an upload was turned away.
#[derive(Debug, PartialEq, Eq, Structural)]
pub enum UploadError {
    MissingBoard,
    MissingPatchFile,
    MissingFilename,
    MissingBoardDefinitionFilename,
    MissingBoardDefinition,
    UnknownBoard,
    NotAPatch,
}

/// A parameter of a form field's content disposition.
#[derive(Debug)]
pub enum FormParam {
    Filename(String),
    Other,
}

/// The filename that the first `filename` parameter of `params` gives, if any.
pub open spec fn first_filename(params: Seq<FormParam>) -> Option<String>
    decreases params.len(),
{
    if params.len() == 0 {
        None
    } else {
        match params[0] {
            FormParam::Filename(f) => Some(f),
            FormParam::Other => first_filename(params.drop_first()),
        }
    }
}

/// The filename of a form field: that of its first `filename` parameter.
pub fn get_filename(params: &Vec<FormParam>) -> (r: Option<String>)
    ensures
        r == first_filename(params@),
{
    let mut i: usize = 0;
    assert(params@.skip(0) =~= params@);
    while i < params.len()
        invariant
            i <= params.len(),
            first_filename(params@) == first_filename(params@.skip(i as int)),
        decreases params.len() - i,
    {
        assert(params@.skip(i as int)[0] == params@[i as int]);
        match &params[i] {
            FormParam::Filename(f) => {
                return Some(f.clone());
            },
            FormParam::Other => {},
        }
        assert(params@.skip(i as int).drop_first() =~= params@.skip(i + 1));
        i += 1;
    }
    None
}

/// What one field of the upload form turned out to be.
#[derive(Debug)]
pub enum UploadFormItem {
    BoardOption(Board),
    BoardDefinitionUpload { filename: String, file_contents: String },
    PatchFileUpload { filename: String, file_contents: String },
    Unrecognized,
}

/// Tells what a form field carries from its disposition (whether it is
/// `form-data`), its name, its disposition parameters and its contents. A
/// file field without a filename or without contents is unrecognized; a board
/// field must name a known board.
pub fn parse_upload_form_item(
    is_form_data: bool,
    name: &str,
    params: &Vec<FormParam>,
    contents: &str,
) -> (r: Result<UploadFormItem, UploadError>)
    ensures
        !is_form_data ==> r matches Ok(UploadFormItem::Unrecognized),
        is_form_data && name@ == "board"@ ==> match r {
            Ok(UploadFormItem::BoardOption(b)) => b.name() == contents@,
            Err(e) => e is UnknownBoard && !Board::is_board_name(contents@),
            _ => false,
        },
        is_form_data && (name@ == "pd_patch"@ || name@ == "board_def"@) ==> {
            if first_filename(params@) is Some && contents@.len() > 0 {
                match r {
                    Ok(UploadFormItem::PatchFileUpload { filename, file_contents }) => name@
                        == "pd_patch"@ && Some(filename) == first_filename(params@)
                        && file_contents@ == contents@,
                    Ok(UploadFormItem::BoardDefinitionUpload { filename, file_contents }) => name@
                        == "board_def"@ && Some(filename) == first_filename(params@)
                        && file_contents@ == contents@,
                    _ => false,
                }
            } else {
                r matches Ok(UploadFormItem::Unrecognized)
            }
        },
        is_form_data && name@ != "board"@ && name@ != "pd_patch"@ && name@ != "board_def"@
            ==> r matches Ok(UploadFormItem::Unrecognized),
{
    proof {
        reveal_strlit("board");
        reveal_strlit("pd_patch");
        reveal_strlit("board_def");
        assert("board"@.len() == 5 && "pd_patch"@.len() == 8 && "board_def"@.len() == 9);
    }
    if !is_form_data {
        return Ok(UploadFormItem::Unrecognized);
    }
    let field = name.to_string();
    if field == "board".to_string() {
        match Board::parse(contents) {
            Ok(b) => Ok(UploadFormItem::BoardOption(b)),
            Err(_) => Err(UploadError::UnknownBoard),
        }
    } else if field == "pd_patch".to_string() || field == "board_def".to_string() {
        let filename = get_filename(params);
        match filename {
            Some(f) => {
                if contents.is_empty() {
                    Ok(UploadFormItem::Unrecognized)
                } else if field == "pd_patch".to_string() {
                    let file_contents = contents.to_string();
                    Ok(UploadFormItem::PatchFileUpload { filename: f, file_contents })
                } else {
                    let file_contents = contents.to_string();
                    Ok(UploadFormItem::BoardDefinitionUpload { filename: f, file_contents })
                }
            },
            None => Ok(UploadFormItem::Unrecognized),
        }
    } else {
        Ok(UploadFormItem::Unrecognized)
    }
}

/// What the fields of an upload form have given so far. A later field of the
/// same kind replaces an earlier one.
#[derive(Debug)]
pub struct UploadForm {
    pub board: Option<Board>,
    pub board_def_filename: Option<String>,
    pub board_def_contents: Option<String>,
    pub patch_filename: Option<String>,
    pub patch_contents: Option<String>,
}

/// A validated upload: the new job's record, the patch to store, and the
/// custom board definition that came with it, if any.
#[derive(Debug)]
pub struct NewPatch {
    pub meta: PatchMeta,
    pub patch_contents: String,
    pub board_definition: Option<String>,
}

/// Whether `s` spells a version 4 UUID the way `uuid` prints one: 36
/// characters, hyphens at 8, 13, 18 and 23, lower-case hex digits elsewhere.
pub open spec fn is_hyphenated_uuid(s: Seq<char>) -> bool {
    &&& s.len() == 36
    &&& forall|i: int|
        0 <= i < 36 ==> if i == 8 || i == 13 || i == 18 || i == 23 {
            #[trigger] s[i] == '-'
        } else {
            ('0' <= s[i] <= '9') || ('a' <= s[i] <= 'f')
        }
}

/// Relies on `uuid::Uuid::new_v4` and its `Display`, which prints the
/// hyphenated lower-case form: a fresh random identifier.
#[verifier::external_body]
fn new_patch_id() -> (r: String)
    ensures
        is_hyphenated_uuid(r@),
{
    uuid::Uuid::new_v4().to_string()
}

impl UploadForm {
    pub fn new() -> (r: UploadForm)
        ensures
            r.board is None,
            r.board_def_filename is None,
            r.board_def_contents is None,
            r.patch_filename is None,
            r.patch_contents is None,
    {
        UploadForm {
            board: None,
            board_def_filename: None,
            board_def_contents: None,
            patch_filename: None,
            patch_contents: None,
        }
    }

    /// Takes in one parsed field.
    pub fn record(&mut self, item: UploadFormItem)
        ensures
            match item {
                UploadFormItem::BoardOption(b) => *final(self) == (UploadForm {
                    board: Some(b),
                    ..*old(self)
                }),
                UploadFormItem::BoardDefinitionUpload { filename, file_contents } => *final(self)
                    == (UploadForm {
                    board_def_filename: Some(filename),
                    board_def_contents: Some(file_contents),
                    ..*old(self)
                }),
                UploadFormItem::PatchFileUpload { filename, file_contents } => *final(self)
                    == (UploadForm {
                    patch_filename: Some(filename),
                    patch_contents: Some(file_contents),
                    ..*old(self)
                }),
                UploadFormItem::Unrecognized => *final(self) == *old(self),
            },
    {
        match item {
            UploadFormItem::BoardOption(b) => {
                self.board = Some(b);
            },
            UploadFormItem::BoardDefinitionUpload { filename, file_contents } => {
                self.board_def_filename = Some(filename);
                self.board_def_contents = Some(file_contents);
            },
            UploadFormItem::PatchFileUpload { filename, file_contents } => {
                self.patch_filename = Some(filename);
                self.patch_contents = Some(file_contents);
            },
            UploadFormItem::Unrecognized => {},
        }
    }

    /// The first reason, in the order the checks are made, for which the form
    /// cannot become a job; `None` when it can.
    pub open spec fn problem(self) -> Option<UploadError> {
        if self.board is None {
            Some(UploadError::MissingBoard)
        } else if self.patch_contents is None {
            Some(UploadError::MissingPatchFile)
        } else if self.patch_filename is None {
            Some(UploadError::MissingFilename)
        } else if self.board == Some(Board::SeedCustomJson) && self.board_def_filename is None {
            Some(UploadError::MissingBoardDefinitionFilename)
        } else if self.board == Some(Board::SeedCustomJson) && self.board_def_contents is None {
            Some(UploadError::MissingBoardDefinition)
        } else if !ends_with(self.patch_filename->0@, ".pd"@) {
            Some(UploadError::NotAPatch)
        } else if !occurs_in(patch_marker(), self.patch_contents->0@) {
            Some(UploadError::NotAPatch)
        } else {
            None
        }
    }

    /// Checks the form: the board, the patch file and its name must be
    /// there, the custom board needs its definition, and the patch must be a
    /// `.pd` file that holds the canvas marker.
    pub fn validate(&self) -> (r: Result<(), UploadError>)
        ensures
            match self.problem() {
                Some(e) => r == Err::<(), UploadError>(e),
                None => r is Ok,
            },
    {
        match (&self.board, &self.patch_contents, &self.patch_filename) {
            (None, _, _) => Err(UploadError::MissingBoard),
            (_, None, _) => Err(UploadError::MissingPatchFile),
            (_, _, None) => Err(UploadError::MissingFilename),
            (Some(board), Some(contents), Some(filename)) => {
                if *board == Board::SeedCustomJson {
                    if self.board_def_filename.is_none() {
                        return Err(UploadError::MissingBoardDefinitionFilename);
                    }
                    if self.board_def_contents.is_none() {
                        return Err(UploadError::MissingBoardDefinition);
                    }
                }
                if !ends_with_text(filename.as_str(), ".pd") {
                    return Err(UploadError::NotAPatch);
                }
                validate_patch_file_contents(contents.as_str())
            },
        }
    }

    /// Turns a checked form into a job with the given identifier and upload
    /// time.
    pub fn into_patch(self, id: String, time_upload: DateTime) -> (r: Result<NewPatch, UploadError>)
        ensures
            match self.problem() {
                Some(e) => r == Err::<NewPatch, UploadError>(e),
                None => r matches Ok(p) && p == (NewPatch {
                    meta: PatchMeta::new_upload_spec(
                        id,
                        self.board->0,
                        self.patch_filename->0,
                        time_upload,
                    ),
                    patch_contents: self.patch_contents->0,
                    board_definition: self.board_def_contents,
                }),
            },
    {
        match self.validate() {
            Err(e) => Err(e),
            Ok(()) => {
                match (self.board, self.patch_filename, self.patch_contents) {
                    (Some(board), Some(filename), Some(patch_contents)) => {
                        let meta = PatchMeta::new_upload(id, board, filename, time_upload);
                        Ok(NewPatch { meta, patch_contents, board_definition: self.board_def_contents })
                    },
                    _ => Err(UploadError::MissingBoard),
                }
            },
        }
    }

    /// Checks the form and, when it passes, makes the job: a fresh random
    /// identifier and the current time as its upload time.
    pub fn finish(self) -> (r: Result<NewPatch, UploadError>)
        ensures
            match self.problem() {
                Some(e) => r == Err::<NewPatch, UploadError>(e),
                None => r matches Ok(p) && is_hyphenated_uuid(p.meta.id@) && p == (NewPatch {
                    meta: PatchMeta::new_upload_spec(
                        p.meta.id,
                        self.board->0,
                        self.patch_filename->0,
                        p.meta.time_upload,
                    ),
                    patch_contents: self.patch_contents->0,
                    board_definition: self.board_def_contents,
                }),
            },
    {
        if let Err(e) = self.validate() {
            return Err(e);
        }
        let id = new_patch_id();
        let time_upload = DateTime::now();
        self.into_patch(id, time_upload)
    }
}

} // verus!
