use help_desk_bot::callback::{data, parse, CallbackRequest, Command};
use help_desk_bot::decimal::to_decimal;
use help_desk_bot::hash::{hash, to_hex_lower};
use help_desk_bot::l10n::{begin, feedback, feedback_ack, feedback_prelude, Lang};

#[test]
fn lang_code_is_ru() {
    assert_eq!(Lang::Ru.as_str(), "ru");
}

#[test]
fn button_labels() {
    assert_eq!(begin(Lang::Ru), "Старт");
    assert_eq!(feedback(Lang::Ru), "[ Оставить отзыв ]");
}

#[test]
fn messages_are_trimmed() {
    assert_eq!(
        feedback_prelude(Lang::Ru),
        "Пожалуйста, напишите Ваш отзыв в следующем сообщении\\.\nПостарайтесь уместить его в *одно* сообщение\\."
    );
    assert_eq!(feedback_ack(Lang::Ru), "Спасибо за Ваше мнение\\.\nМы обязательно его учтем\\.");
    assert_eq!(feedback_ack(Lang::Ru), feedback_ack(Lang::Ru).trim());
    assert_eq!(feedback_prelude(Lang::Ru), feedback_prelude(Lang::Ru).trim());
}

#[test]
fn hash_of_known_texts() {
    assert_eq!(hash(""), "d41d8cd98f00b204e9800998ecf8427e");
    assert_eq!(hash("abc"), "900150983cd24fb0d6963f7d28e17f72");
    assert_eq!(hash("/"), "6666cd76f96956469e7be39d750cc7d9");
}

#[test]
fn hash_is_32_lowercase_hex_digits() {
    for text in ["", "/", "/a/b", "Старт", "a much longer key with spaces and / separators"] {
        let h = hash(text);
        assert_eq!(h.chars().count(), 32);
        assert!(h.chars().all(|c| c.is_ascii_digit() || ('a'..='f').contains(&c)));
    }
}

#[test]
fn hex_of_bytes() {
    assert_eq!(to_hex_lower(&vec![0x00, 0xff, 0x1a, 0x09]), "00ff1a09");
    assert_eq!(to_hex_lower(&vec![]), "");
}

#[test]
fn decimal_numbers() {
    assert_eq!(to_decimal(0), "0");
    assert_eq!(to_decimal(7), "7");
    assert_eq!(to_decimal(120), "120");
    assert_eq!(to_decimal(u64::MAX), u64::MAX.to_string());
}

#[test]
fn command_names() {
    assert_eq!(Command::Goto.as_str(), "goto");
    assert_eq!(Command::Like.as_str(), "like");
}

#[test]
fn callback_data_of_root() {
    assert_eq!(data(Command::Goto, "/"), "/goto#6666cd76f96956469e7be39d750cc7d9");
    assert_eq!(data(Command::Like, ""), "/like#d41d8cd98f00b204e9800998ecf8427e");
}

#[test]
fn callback_data_round_trip() {
    for key in ["/", "/a", "/a/b_c", "Старт"] {
        assert_eq!(parse(&data(Command::Goto, key)), CallbackRequest::Goto(hash(key)));
        assert_eq!(parse(&data(Command::Like, key)), CallbackRequest::Like(hash(key)));
    }
}

#[test]
fn parse_other_callback_data() {
    assert_eq!(parse("/feedback"), CallbackRequest::Feedback);
    assert_eq!(parse("/feedback#x"), CallbackRequest::Unknown);
    assert_eq!(parse("/goto"), CallbackRequest::Unknown);
    assert_eq!(parse(""), CallbackRequest::Unknown);
    assert_eq!(parse("/goto#"), CallbackRequest::Goto(String::new()));
    assert_eq!(parse("/like#abc#d"), CallbackRequest::Like("abc#d".to_string()));
}

#[test]
fn callback_data_is_38_chars_ending_in_hex() {
    for key in ["/", "/a/b", "/доступ/жильё"] {
        for cmd in [Command::Goto, Command::Like] {
            let d = data(cmd, key);
            assert_eq!(d.chars().count(), 38);
            assert!(d.chars().skip(6).all(|c| c.is_ascii_digit() || ('a'..='f').contains(&c)));
        }
    }
}
