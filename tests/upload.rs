use patch_compiler::boards::Board;
use patch_compiler::patches::{DateTime, PatchStatus};
use patch_compiler::upload::{
    get_filename, parse_upload_form_item, FormParam, UploadError, UploadForm, UploadFormItem,
};

const PATCH: &str = "#N canvas 0 50 450 300 12;\n#X obj 30 27 osc~ 440;";

fn file_params(name: &str) -> Vec<FormParam> {
    vec![FormParam::Other, FormParam::Filename(name.to_string())]
}

fn complete_form(board: Board) -> UploadForm {
    let mut form = UploadForm::new();
    form.record(UploadFormItem::BoardOption(board));
    form.record(UploadFormItem::PatchFileUpload {
        filename: "synth.pd".to_string(),
        file_contents: PATCH.to_string(),
    });
    form
}

#[test]
fn get_filename_takes_the_first_filename() {
    assert_eq!(get_filename(&vec![]), None);
    assert_eq!(get_filename(&vec![FormParam::Other]), None);
    assert_eq!(
        get_filename(&vec![
            FormParam::Other,
            FormParam::Filename("a.pd".to_string()),
            FormParam::Filename("b.pd".to_string()),
        ]),
        Some("a.pd".to_string())
    );
}

#[test]
fn form_item_board_field() {
    match parse_upload_form_item(true, "board", &vec![], "patch_init") {
        Ok(UploadFormItem::BoardOption(b)) => assert_eq!(b, Board::PatchInit),
        other => panic!("unexpected {:?}", other),
    }
    assert!(matches!(
        parse_upload_form_item(true, "board", &vec![], "nonsense"),
        Err(UploadError::UnknownBoard)
    ));
}

#[test]
fn form_item_patch_and_board_definition_fields() {
    match parse_upload_form_item(true, "pd_patch", &file_params("synth.pd"), PATCH) {
        Ok(UploadFormItem::PatchFileUpload { filename, file_contents }) => {
            assert_eq!(filename, "synth.pd");
            assert_eq!(file_contents, PATCH);
        }
        other => panic!("unexpected {:?}", other),
    }
    match parse_upload_form_item(true, "board_def", &file_params("board.json"), "{}") {
        Ok(UploadFormItem::BoardDefinitionUpload { filename, file_contents }) => {
            assert_eq!(filename, "board.json");
            assert_eq!(file_contents, "{}");
        }
        other => panic!("unexpected {:?}", other),
    }
}

#[test]
fn form_item_unrecognized_fields() {
    // no filename
    assert!(matches!(
        parse_upload_form_item(true, "pd_patch", &vec![FormParam::Other], PATCH),
        Ok(UploadFormItem::Unrecognized)
    ));
    // empty contents
    assert!(matches!(
        parse_upload_form_item(true, "pd_patch", &file_params("synth.pd"), ""),
        Ok(UploadFormItem::Unrecognized)
    ));
    // unknown name
    assert!(matches!(
        parse_upload_form_item(true, "comment", &vec![], "hello"),
        Ok(UploadFormItem::Unrecognized)
    ));
    // not form-data
    assert!(matches!(
        parse_upload_form_item(false, "board", &vec![], "pod"),
        Ok(UploadFormItem::Unrecognized)
    ));
}

#[test]
fn form_errors_in_check_order() {
    let time = DateTime { secs: 100, nanos: 0 };
    let empty = UploadForm::new();
    assert_eq!(empty.validate(), Err(UploadError::MissingBoard));

    let mut board_only = UploadForm::new();
    board_only.record(UploadFormItem::BoardOption(Board::Pod));
    assert_eq!(board_only.validate(), Err(UploadError::MissingPatchFile));

    let mut no_name = UploadForm::new();
    no_name.record(UploadFormItem::BoardOption(Board::Pod));
    no_name.patch_contents = Some(PATCH.to_string());
    assert_eq!(no_name.validate(), Err(UploadError::MissingFilename));

    let seed = complete_form(Board::SeedCustomJson);
    assert_eq!(seed.validate(), Err(UploadError::MissingBoardDefinitionFilename));

    let mut seed_no_contents = complete_form(Board::SeedCustomJson);
    seed_no_contents.board_def_filename = Some("board.json".to_string());
    assert_eq!(seed_no_contents.validate(), Err(UploadError::MissingBoardDefinition));

    let mut wrong_suffix = complete_form(Board::Pod);
    wrong_suffix.patch_filename = Some("synth.txt".to_string());
    assert_eq!(wrong_suffix.validate(), Err(UploadError::NotAPatch));

    let mut wrong_contents = complete_form(Board::Pod);
    wrong_contents.patch_contents = Some("hello".to_string());
    assert!(matches!(
        wrong_contents.into_patch("id".to_string(), time),
        Err(UploadError::NotAPatch)
    ));
}

#[test]
fn form_becomes_an_uploaded_record() {
    let time = DateTime { secs: 1_700_000_000, nanos: 5 };
    let created = complete_form(Board::Field).into_patch("job-1".to_string(), time).unwrap();
    assert_eq!(created.meta.id, "job-1");
    assert_eq!(created.meta.board, Board::Field);
    assert_eq!(created.meta.filename, "synth.pd");
    assert!(matches!(created.meta.status, PatchStatus::Uploaded));
    assert_eq!(created.meta.time_upload, time);
    assert_eq!(created.meta.time_compile_start, None);
    assert_eq!(created.meta.time_compile_end, None);
    assert_eq!(created.patch_contents, PATCH);
    assert_eq!(created.board_definition, None);
}

#[test]
fn custom_board_keeps_its_definition() {
    let mut form = complete_form(Board::SeedCustomJson);
    form.record(UploadFormItem::BoardDefinitionUpload {
        filename: "board.json".to_string(),
        file_contents: "{\"name\": \"x\"}".to_string(),
    });
    let created = form.into_patch("job-2".to_string(), DateTime { secs: 1, nanos: 0 }).unwrap();
    assert_eq!(created.board_definition, Some("{\"name\": \"x\"}".to_string()));
}

#[test]
fn later_fields_replace_earlier_ones() {
    let mut form = complete_form(Board::Pod);
    form.record(UploadFormItem::BoardOption(Board::Petal));
    form.record(UploadFormItem::Unrecognized);
    assert_eq!(form.board, Some(Board::Petal));
    assert_eq!(form.patch_filename, Some("synth.pd".to_string()));
}

#[test]
fn finish_gives_a_fresh_uuid() {
    let a = complete_form(Board::Pod).finish().unwrap();
    let b = complete_form(Board::Pod).finish().unwrap();
    let id: Vec<char> = a.meta.id.chars().collect();
    assert_eq!(id.len(), 36);
    for (i, c) in id.iter().enumerate() {
        if i == 8 || i == 13 || i == 18 || i == 23 {
            assert_eq!(*c, '-');
        } else {
            assert!(c.is_ascii_digit() || ('a'..='f').contains(c));
        }
    }
    assert_ne!(a.meta.id, b.meta.id);
    assert!(a.meta.time_upload.secs > 1_600_000_000);
    assert!(matches!(complete_form(Board::SeedCustomJson).finish(), Err(UploadError::MissingBoardDefinitionFilename)));
}
