use shop::console::{
    answer_or_default, cancels_addition, confirms_deletion, image_or_placeholder, menu_choice, prompt_answer,
    MenuChoice, PLACEHOLDER_IMAGE,
};
use shop::text::{parse_u32, same_text, trim, white_space};
use shop::upload::{
    allowed_extension, classify_field, new_upload_target, next_upload_action, upload_target_for,
    FieldDecision, UploadAction, UploadEvent, UploadFailure, UploadReply,
};

#[test]
fn parse_u32_reads_decimal_numbers() {
    assert_eq!(parse_u32("0"), Some(0));
    assert_eq!(parse_u32("42"), Some(42));
    assert_eq!(parse_u32("+7"), Some(7));
    assert_eq!(parse_u32("007"), Some(7));
    assert_eq!(parse_u32("4294967295"), Some(u32::MAX));
}

#[test]
fn parse_u32_refuses_what_u32_from_str_refuses() {
    for text in ["", "+", "-", "-1", "-0", "4294967296", "99999999999", "12a", " 1", "1 ", "++1", "1.5"] {
        assert_eq!(parse_u32(text), text.parse::<u32>().ok(), "on {:?}", text);
        assert_eq!(parse_u32(text), None, "on {:?}", text);
    }
}

#[test]
fn parse_u32_agrees_with_std_on_many_inputs() {
    for n in (0u64..5000).chain([4294967294, 4294967295, 4294967296, 10000000000]) {
        let text = n.to_string();
        assert_eq!(parse_u32(&text), text.parse::<u32>().ok());
        let signed = format!("+{}", n);
        assert_eq!(parse_u32(&signed), signed.parse::<u32>().ok());
    }
}

#[test]
fn same_text_compares_characters() {
    assert!(same_text("image", "image"));
    assert!(!same_text("image", "images"));
    assert!(!same_text("Image", "image"));
    assert!(same_text("", ""));
    assert!(same_text("黑风", "黑风"));
}

#[test]
fn menu_answers_select_entries() {
    assert_eq!(menu_choice("1"), MenuChoice::List);
    assert_eq!(menu_choice("2"), MenuChoice::Add);
    assert_eq!(menu_choice("3"), MenuChoice::Edit);
    assert_eq!(menu_choice("4"), MenuChoice::Delete);
    assert_eq!(menu_choice("q"), MenuChoice::Quit);
    assert_eq!(menu_choice("Q"), MenuChoice::Quit);
    assert_eq!(menu_choice("5"), MenuChoice::Unknown);
    assert_eq!(menu_choice(""), MenuChoice::Unknown);
    assert_eq!(menu_choice("quit"), MenuChoice::Unknown);
}

#[test]
fn prompt_answers_are_trimmed() {
    assert_eq!(prompt_answer("  Widget \n"), "Widget");
    assert_eq!(prompt_answer("\n"), "");
}

#[test]
fn an_empty_answer_keeps_the_default() {
    assert_eq!(answer_or_default("\n", "Apple"), "Apple");
    assert_eq!(answer_or_default("   \t\n", "12"), "12");
    assert_eq!(answer_or_default(" Pear \n", "Apple"), "Pear");
}

#[test]
fn a_missing_image_gets_the_placeholder() {
    assert_eq!(image_or_placeholder(String::new()), PLACEHOLDER_IMAGE);
    assert_eq!(PLACEHOLDER_IMAGE, "https://via.placeholder.com/300x200?text=No+Image");
    assert_eq!(image_or_placeholder("x.png".to_string()), "x.png");
}

#[test]
fn only_y_confirms_a_deletion() {
    assert!(confirms_deletion("y"));
    assert!(confirms_deletion("Y"));
    assert!(!confirms_deletion("yes"));
    assert!(!confirms_deletion("n"));
    assert!(!confirms_deletion(""));
}

#[test]
fn accepted_extensions() {
    for ext in ["jpg", "jpeg", "png", "gif", "webp", "avif"] {
        assert!(allowed_extension(ext));
    }
    for ext in ["JPG", "bin", "exe", "", "pngx", "svg"] {
        assert!(!allowed_extension(ext));
    }
}

#[test]
fn fields_other_than_image_are_skipped() {
    assert!(matches!(classify_field(None, Some("a.png")), FieldDecision::Skip));
    assert!(matches!(classify_field(Some("file"), Some("a.png")), FieldDecision::Skip));
    assert!(matches!(classify_field(Some(""), Some("a.png")), FieldDecision::Skip));
    assert!(matches!(classify_field(Some("Image"), Some("a.png")), FieldDecision::Skip));
}

#[test]
fn image_extensions_are_lowercased_and_checked() {
    match classify_field(Some("image"), Some("Holiday.Photo.JPG")) {
        FieldDecision::Accept(ext) => assert_eq!(ext, "jpg"),
        other => panic!("unexpected {:?}", other),
    }
    match classify_field(Some("image"), Some("dir/cat.webp")) {
        FieldDecision::Accept(ext) => assert_eq!(ext, "webp"),
        other => panic!("unexpected {:?}", other),
    }
    assert!(matches!(classify_field(Some("image"), Some("tool.exe")), FieldDecision::InvalidFileType));
    assert!(matches!(classify_field(Some("image"), Some("noext")), FieldDecision::InvalidFileType));
    assert!(matches!(classify_field(Some("image"), Some(".png")), FieldDecision::InvalidFileType));
    assert!(matches!(classify_field(Some("image"), None), FieldDecision::InvalidFileType));
}

#[test]
fn upload_paths_share_the_stored_name() {
    let target = upload_target_for("0123", "png");
    assert_eq!(target.save_path, "static/uploads/0123.png");
    assert_eq!(target.url, "/static/uploads/0123.png");
    assert_eq!(target.url, format!("/{}", target.save_path));
}

#[test]
fn new_uploads_get_random_uuid_names() {
    let a = new_upload_target("gif");
    let b = new_upload_target("gif");
    assert_ne!(a.save_path, b.save_path);
    let name = a.save_path.strip_prefix("static/uploads/").unwrap();
    assert_eq!(name.len(), 36 + 4);
    assert!(name.ends_with(".gif"));
    let unique = &name[..36];
    for (i, c) in unique.chars().enumerate() {
        if i == 8 || i == 13 || i == 18 || i == 23 {
            assert_eq!(c, '-');
        } else {
            assert!(c.is_ascii_digit() || ('a'..='f').contains(&c));
        }
    }
    assert_eq!(a.url, format!("/{}", a.save_path));
}

#[test]
fn upload_failures_answer_with_text() {
    assert_eq!(UploadFailure::InvalidFileType.message(), "Invalid file type");
    assert_eq!(UploadFailure::UploadFailed.message(), "Upload failed");
}

#[test]
fn white_space_is_what_char_is_whitespace_says() {
    for c in (0u32..=0x10FFFF).filter_map(char::from_u32) {
        assert_eq!(white_space(c), c.is_whitespace(), "on U+{:04X}", c as u32);
    }
}

#[test]
fn trim_agrees_with_str_trim() {
    let samples = [
        "", " ", "  Cup \n", "\t\r\nx", "x\u{3000}", "\u{a0}a b\u{2028}", "a", " a b ",
        "\u{85}\u{1680}\u{2000}\u{200a}\u{202f}\u{205f}mid\u{2029}\u{b}\u{c}",
        "\u{200b}zero-width\u{200b}", "黑 风", "  \n\t ",
    ];
    for text in samples {
        assert_eq!(trim(text), text.trim(), "on {:?}", text);
    }
    assert_eq!(trim("  Cup \n"), "Cup");
}

#[test]
fn a_padded_y_confirms_once_trimmed() {
    assert!(confirms_deletion(&prompt_answer(" Y \n")));
}

#[test]
fn an_empty_name_cancels_an_addition() {
    assert!(cancels_addition(""));
    assert!(!cancels_addition("Cup"));
    assert!(!cancels_addition(" "));
}

#[test]
fn upload_steps() {
    assert!(matches!(
        next_upload_action(UploadEvent::Classified(FieldDecision::Skip)),
        UploadAction::ReadNextField
    ));
    match next_upload_action(UploadEvent::Classified(FieldDecision::InvalidFileType)) {
        UploadAction::Reply(UploadReply::Error(UploadFailure::InvalidFileType)) => {}
        other => panic!("unexpected {:?}", other),
    }
    match next_upload_action(UploadEvent::Classified(FieldDecision::Accept("png".to_string()))) {
        UploadAction::Store(target) => {
            assert!(target.save_path.starts_with("static/uploads/"));
            assert!(target.save_path.ends_with(".png"));
            assert_eq!(target.url, format!("/{}", target.save_path));
        }
        other => panic!("unexpected {:?}", other),
    }
    let target = upload_target_for("abc", "gif");
    match next_upload_action(UploadEvent::StoreSucceeded(target)) {
        UploadAction::Reply(reply) => {
            assert_eq!(reply.status_code(), 200);
            match reply {
                UploadReply::Url(url) => assert_eq!(url, "/static/uploads/abc.gif"),
                other => panic!("unexpected {:?}", other),
            }
        }
        other => panic!("unexpected {:?}", other),
    }
    assert!(matches!(next_upload_action(UploadEvent::StoreFailed), UploadAction::ReadNextField));
    match next_upload_action(UploadEvent::NoMoreFields) {
        UploadAction::Reply(reply) => {
            assert_eq!(reply.status_code(), 400);
            assert!(matches!(reply, UploadReply::Error(UploadFailure::UploadFailed)));
        }
        other => panic!("unexpected {:?}", other),
    }
}
