use vstd::prelude::*;

verus! {

/// The language code of Russian.
pub const RU: &'static str = "ru";

/// The languages the bot speaks.
#[derive(Debug, Clone, Copy, PartialEq, Eq, Structural)]
pub enum Lang {
    Ru,
}

/// The language code of a language, as the store's keys use it.
pub open spec fn lang_code(lang: Lang) -> Seq<char> {
    match lang {
        Lang::Ru => seq!['r', 'u'],
    }
}

impl Lang {
    /// The language code: `"ru"` for Russian.
    pub fn as_str(&self) -> (r: &'static str)
        ensures
            r@ == lang_code(*self),
    {
        proof {
            reveal_strlit("ru");
        }
        match self {
            Lang::Ru => RU,
        }
    }
}

/// The label of the button that opens the grid.
pub open spec fn begin_label(lang: Lang) -> Seq<char> {
    match lang {
        Lang::Ru => "Старт"@,
    }
}

/// The label of the button that starts the feedback flow.
pub open spec fn feedback_label(lang: Lang) -> Seq<char> {
    match lang {
        Lang::Ru => "[ Оставить отзыв ]"@,
    }
}

/// The message that asks a user for feedback (MarkdownV2).
pub open spec fn feedback_prelude_text(lang: Lang) -> Seq<char> {
    match lang {
        Lang::Ru => "Пожалуйста, напишите Ваш отзыв в следующем сообщении\\.\nПостарайтесь уместить его в *одно* сообщение\\."@,
    }
}

/// The message that thanks a user for feedback (MarkdownV2).
pub open spec fn feedback_ack_text(lang: Lang) -> Seq<char> {
    match lang {
        Lang::Ru => "Спасибо за Ваше мнение\\.\nМы обязательно его учтем\\."@,
    }
}

/// The label of the button that opens the grid.
pub fn begin(lang: Lang) -> (r: &'static str)
    ensures
        r@ == begin_label(lang),
{
    match lang {
        Lang::Ru => "Старт",
    }
}

/// The label of the button that starts the feedback flow.
pub fn feedback(lang: Lang) -> (r: &'static str)
    ensures
        r@ == feedback_label(lang),
{
    match lang {
        Lang::Ru => "[ Оставить отзыв ]",
    }
}

/// The message that asks a user for feedback, without surrounding blank lines.
pub fn feedback_prelude(lang: Lang) -> (r: &'static str)
    ensures
        r@ == feedback_prelude_text(lang),
{
    match lang {
        Lang::Ru => "Пожалуйста, напишите Ваш отзыв в следующем сообщении\\.\nПостарайтесь уместить его в *одно* сообщение\\.",
    }
}

/// The message that thanks a user for feedback, without surrounding blank lines.
pub fn feedback_ack(lang: Lang) -> (r: &'static str)
    ensures
        r@ == feedback_ack_text(lang),
{
    match lang {
        Lang::Ru => "Спасибо за Ваше мнение\\.\nМы обязательно его учтем\\.",
    }
}

} // verus!
