use vstd::prelude::*;

use crate::decimal::decimal;
use crate::l10n::Lang;

verus! {

/// A data entry of the grid, as read from the store.
#[derive(Debug, Clone, PartialEq, Eq)]
pub struct DataEntry {
    pub text: String,
    pub created: String,
    pub views: u32,
    pub likes: u32,
}

/// What the data entry template is rendered with.
#[derive(Debug, Clone, PartialEq, Eq)]
pub struct Context {
    pub header: String,
    pub data_entry: DataEntry,
}

/// The text of the data entry template of `lang` with its placeholders
/// filled: the header, the entry's text, its creation time and its view
/// count in decimal, each inserted as it is.
pub open spec fn data_entry_text(
    lang: Lang,
    header: Seq<char>,
    text: Seq<char>,
    created: Seq<char>,
    views: nat,
) -> Seq<char> {
    match lang {
        Lang::Ru => "\n*"@ + header + "*\n\n"@ + text + "\n\n*_Опубликовано: "@ + created
            + "_*\n*_Просмотрено: "@ + decimal(views) + "_*\n"@,
    }
}

/// Calls `tera::Tera::one_off(template, &context, false)` on the data entry
/// template of `lang`, with a context built from `header` and the fields of
/// `entry`, exactly as a serialized `Context` would hold them. Trusted: tera
/// parses that fixed template, and with autoescaping off it prints a string
/// variable as it is and a number in decimal, between the template's text, so
/// the result is `data_entry_text` of the language and those values.
#[verifier::external_body]
fn render_one_off(lang: Lang, template: &str, header: &str, entry: &DataEntry) -> (r: Option<String>)
    requires
        template@ == template_text(lang),
    ensures
        r is Some,
        r.unwrap()@ == data_entry_text(lang, header@, entry.text@, entry.created@, entry.views as nat),
{
    let _ = lang;
    let mut data_entry = tera::Map::new();
    data_entry.insert("text".to_string(), tera::Value::from(entry.text.as_str()));
    data_entry.insert("created".to_string(), tera::Value::from(entry.created.as_str()));
    data_entry.insert("views".to_string(), tera::Value::from(entry.views));
    data_entry.insert("likes".to_string(), tera::Value::from(entry.likes));
    let mut context = tera::Context::new();
    context.insert("header", header);
    context.insert("data_entry", &data_entry);
    tera::Tera::one_off(template, &context, false).ok()
}

/// The data entry template of a language (MarkdownV2 with tera placeholders).
pub open spec fn template_text(lang: Lang) -> Seq<char> {
    match lang {
        Lang::Ru => "\n*{{ header }}*\n\n{{ data_entry.text }}\n\n*_Опубликовано: {{ data_entry.created }}_*\n*_Просмотрено: {{ data_entry.views }}_*\n"@,
    }
}

fn template(lang: Lang) -> (r: &'static str)
    ensures
        r@ == template_text(lang),
{
    match lang {
        Lang::Ru => "\n*{{ header }}*\n\n{{ data_entry.text }}\n\n*_Опубликовано: {{ data_entry.created }}_*\n*_Просмотрено: {{ data_entry.views }}_*\n",
    }
}

/// Why a data entry could not be rendered.
#[derive(Debug, Clone, Copy, PartialEq, Eq)]
pub enum RenderError {
    /// The template engine reported an error.
    Template,
}

/// What rendering a data entry with a header in a language gives.
pub open spec fn rendered(header: Seq<char>, entry: DataEntry, lang: Lang) -> Seq<char> {
    data_entry_text(lang, header, entry.text@, entry.created@, entry.views as nat)
}

/// Renders a data entry under its header with the template of `lang`.
pub fn render(context: &Context, lang: Lang) -> (r: Result<String, RenderError>)
    ensures
        r matches Ok(s) && s@ == rendered(context.header@, context.data_entry, lang),
{
    match render_one_off(lang, template(lang), context.header.as_str(), &context.data_entry) {
        Some(t) => Ok(t),
        None => Err(RenderError::Template),
    }
}

} // verus!
