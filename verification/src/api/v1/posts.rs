//! Builders to interact with the set of post endpoints.

mod add;
mod all;
mod dates;
mod delete;
mod get;
mod recent;
mod suggest;
mod update;

pub use self::add::Add;
pub use self::add::AddBuilder;
pub use self::add::AddBuilderView;
pub use self::add::AddView;
pub use self::add::lemma_add_names;
pub use self::add::lemma_add_title_defaults_to_url;
pub use self::add::lemma_add_omits_unset;
pub use self::all::All;
pub use self::all::AllBuilder;
pub use self::all::AllView;
pub use self::all::lemma_all_names;
pub use self::all::lemma_all_omits_unset;
pub use self::dates::Dates;
pub use self::dates::DatesBuilder;
pub use self::dates::lemma_dates_omits_unset;
pub use self::delete::Delete;
pub use self::delete::DeleteBuilder;
pub use self::get::Get;
pub use self::get::GetBuilder;
pub use self::get::GetView;
pub use self::get::lemma_get_names;
pub use self::get::lemma_get_omits_unset;
pub use self::recent::Recent;
pub use self::recent::RecentBuilder;
pub use self::recent::RecentView;
pub use self::recent::lemma_recent_omits_unset;
pub use self::suggest::Suggest;
pub use self::suggest::SuggestBuilder;
pub use self::update::Update;
pub use self::update::UpdateBuilder;
