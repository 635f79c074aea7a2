//! The answer to the help button: a menu of the help categories.

use vstd::prelude::*;
use crate::command::command::{Component, MessageData, Response, SelectMenu, SelectMenuOption};
use crate::text::{i64_to_decimal, signed_decimal};

verus! {

pub const HELP_SELECT_CATEGORY_ID: &'static str = "help_select_category";
pub const CATEGORY_PLACEHOLDER: &'static str = "Sormak istediğiniz kategori";
pub const CATEGORIES_TEXT: &'static str = "Aşağıdan önce sormak istediğiniz genel kategoriyi seçiniz. Sorunuz eğer ki bir dil ile alakalıysa dili; spesifik olarak dilin kullanıldığı bir platformla, mesela web framework, oyun motoru veya kütüphane ile alakalıysa onları seçiniz. Eğer ki emin değilseniz dili seçebilirsiniz, çok spesifik olması durumunda uygun kanala yönlendirme yapılacaktır.";

/// A recorded help category.
#[derive(Debug)]
pub struct CategoryRecord {
    pub id: i64,
    pub name: String,
}

/// `m` is an ephemeral message with `text` and a one-choice select menu
/// with this id and placeholder, whose options have these labels and values.
pub open spec fn is_select_message(
    m: MessageData,
    text: Seq<char>,
    custom_id: Seq<char>,
    placeholder: Seq<char>,
    labels: Seq<Seq<char>>,
    values: Seq<Seq<char>>,
) -> bool {
    &&& m.ephemeral
    &&& m.content matches Some(c)
    &&& c@ == text
    &&& m.component matches Some(Component::SelectMenu(s))
    &&& s.custom_id@ == custom_id
    &&& s.placeholder@ == placeholder
    &&& s.min_values == 1
    &&& s.max_values == 1
    &&& s.options@.len() == labels.len()
    &&& s.options@.len() == values.len()
    &&& forall|i: int|
        0 <= i < labels.len() ==> #[trigger] s.options@[i].label@ == labels[i] && s.options@[i].value@
            == values[i]
}

/// The menu of help categories, each shown by name and chosen by id.
pub fn categories_menu(categories: &Vec<CategoryRecord>) -> (r: Response)
    ensures
        r matches Response::Message(m) && is_select_message(
            m,
            CATEGORIES_TEXT@,
            HELP_SELECT_CATEGORY_ID@,
            CATEGORY_PLACEHOLDER@,
            categories@.map_values(|c: CategoryRecord| c.name@),
            categories@.map_values(|c: CategoryRecord| signed_decimal(c.id as int)),
        ),
{
    let mut options: Vec<SelectMenuOption> = Vec::new();
    let mut i: usize = 0;
    while i < categories.len()
        invariant
            i <= categories.len(),
            options@.len() == i,
            forall|k: int|
                0 <= k < i ==> #[trigger] options@[k].label@ == categories@[k].name@ && options@[k].value@
                    == signed_decimal(categories@[k].id as int),
        decreases categories.len() - i,
    {
        let category = &categories[i];
        options.push(SelectMenuOption { label: category.name.clone(), value: i64_to_decimal(category.id) });
        i = i + 1;
    }
    proof {
        let labels = categories@.map_values(|c: CategoryRecord| c.name@);
        let values = categories@.map_values(|c: CategoryRecord| signed_decimal(c.id as int));
        assert forall|k: int| 0 <= k < labels.len() implies #[trigger] options@[k].label@ == labels[k]
            && options@[k].value@ == values[k] by {}
    }
    Response::Message(
        MessageData {
            content: Some(CATEGORIES_TEXT.to_owned()),
            ephemeral: true,
            component: Some(
                Component::SelectMenu(
                    SelectMenu {
                        custom_id: HELP_SELECT_CATEGORY_ID.to_owned(),
                        placeholder: CATEGORY_PLACEHOLDER.to_owned(),
                        min_values: 1,
                        max_values: 1,
                        options,
                    },
                ),
            ),
        },
    )
}

} // verus!
