//! The filters of the six resource kinds. Each one is a table of optional
//! fields; the generic mapping of `query` turns the set ones into pairs.

use vstd::prelude::*;
use crate::query::{
    ascending, emit_flag, emit_number, emit_text, emit_time, emitted, flag_field, lemma_ascending_push,
    lemma_emitted_from_table, lemma_emitted_push, lemma_fields_round_trip, number_field, pairs_view, text_field, time_field, value_of, Field, Param, QueryParam,
};
use crate::text::{lemma_u32_text_round_trip, u32_of_text};
use crate::time::Timestamp;

verus! {

/// A filter: a fixed table of optional fields, each under its own key.
pub trait Filter {
    /// The rows of the filter, in ascending order of their keys.
    spec fn table(&self) -> Seq<Field>;

    /// No key is repeated in the table; they ascend.
    proof fn lemma_table_ascending(&self)
        ensures
            ascending(self.table()),
    ;

    /// The query pairs of the set fields, in table order.
    fn query_params(&self) -> (r: Vec<QueryParam>)
        ensures
            pairs_view(r@) == emitted(self.table()),
    ;
}

/// The filter of a call that takes none.
#[derive(Debug)]
pub struct NoneFilter {}

impl Filter for NoneFilter {
    open spec fn table(&self) -> Seq<Field> {
        Seq::empty()
    }

    proof fn lemma_table_ascending(&self) {
    }

    fn query_params(&self) -> (r: Vec<QueryParam>) {
        let out: Vec<QueryParam> = Vec::new();
        assert(pairs_view(out@) =~= Seq::<(Param, Seq<char>)>::empty());
        out
    }
}

/// Optional conditions on a listing of characters; unset fields are not sent.
#[derive(Debug)]
pub struct CharactersFilter {
    /// Return only characters matching the specified full character name (e.g. Spider-Man).
    pub name: Option<String>,
    /// Return characters with names that begin with the specified string (e.g. Sp).
    pub name_starts_with: Option<String>,
    /// Return only characters which have been modified since the specified date.
    pub modified_since: Option<Timestamp>,
    /// Return only characters which appear in the specified comics (a comma-separated list of ids).
    pub comics: Option<String>,
    /// Return only characters which appear in the specified series (a comma-separated list of ids).
    pub series: Option<String>,
    /// Return only characters which appear in the specified events (a comma-separated list of ids).
    pub events: Option<String>,
    /// Return only characters which appear in the specified stories (a comma-separated list of ids).
    pub stories: Option<String>,
    /// Order the result set by a field or fields; a leading `-` sorts descending.
    pub order_by: Option<String>,
    /// Limit the result set to the specified number of resources.
    pub limit: Option<u32>,
    /// Skip the specified number of resources in the result set.
    pub offset: Option<u32>,
}

impl CharactersFilter {
    /// A filter with no field set.
    pub fn new() -> (r: Self)
        ensures
            r.name is None,
            r.name_starts_with is None,
            r.modified_since is None,
            r.comics is None,
            r.series is None,
            r.events is None,
            r.stories is None,
            r.order_by is None,
            r.limit is None,
            r.offset is None,
    {
        CharactersFilter {
            name: None,
            name_starts_with: None,
            modified_since: None,
            comics: None,
            series: None,
            events: None,
            stories: None,
            order_by: None,
            limit: None,
            offset: None,
        }
    }
}

impl Filter for CharactersFilter {
    open spec fn table(&self) -> Seq<Field> {
        Seq::empty()
            .push(text_field(Param::Comics, self.comics))
            .push(text_field(Param::Events, self.events))
            .push(number_field(Param::Limit, self.limit))
            .push(time_field(Param::ModifiedSince, self.modified_since))
            .push(text_field(Param::Name, self.name))
            .push(text_field(Param::NameStartsWith, self.name_starts_with))
            .push(number_field(Param::Offset, self.offset))
            .push(text_field(Param::OrderBy, self.order_by))
            .push(text_field(Param::Series, self.series))
            .push(text_field(Param::Stories, self.stories))
    }

    proof fn lemma_table_ascending(&self) {
        let t0 = Seq::<Field>::empty();
        lemma_ascending_push(t0, text_field(Param::Comics, self.comics));
        let t1 = t0.push(text_field(Param::Comics, self.comics));
        lemma_ascending_push(t1, text_field(Param::Events, self.events));
        let t2 = t1.push(text_field(Param::Events, self.events));
        lemma_ascending_push(t2, number_field(Param::Limit, self.limit));
        let t3 = t2.push(number_field(Param::Limit, self.limit));
        lemma_ascending_push(t3, time_field(Param::ModifiedSince, self.modified_since));
        let t4 = t3.push(time_field(Param::ModifiedSince, self.modified_since));
        lemma_ascending_push(t4, text_field(Param::Name, self.name));
        let t5 = t4.push(text_field(Param::Name, self.name));
        lemma_ascending_push(t5, text_field(Param::NameStartsWith, self.name_starts_with));
        let t6 = t5.push(text_field(Param::NameStartsWith, self.name_starts_with));
        lemma_ascending_push(t6, number_field(Param::Offset, self.offset));
        let t7 = t6.push(number_field(Param::Offset, self.offset));
        lemma_ascending_push(t7, text_field(Param::OrderBy, self.order_by));
        let t8 = t7.push(text_field(Param::OrderBy, self.order_by));
        lemma_ascending_push(t8, text_field(Param::Series, self.series));
        let t9 = t8.push(text_field(Param::Series, self.series));
        lemma_ascending_push(t9, text_field(Param::Stories, self.stories));
        let t10 = t9.push(text_field(Param::Stories, self.stories));
        assert(t10 == self.table());
    }

    fn query_params(&self) -> (r: Vec<QueryParam>) {
        broadcast use lemma_emitted_push;

        let mut out: Vec<QueryParam> = Vec::new();
        assert(pairs_view(out@) =~= emitted(Seq::empty()));
        emit_text(&mut out, Param::Comics, &self.comics);
        emit_text(&mut out, Param::Events, &self.events);
        emit_number(&mut out, Param::Limit, &self.limit);
        emit_time(&mut out, Param::ModifiedSince, &self.modified_since);
        emit_text(&mut out, Param::Name, &self.name);
        emit_text(&mut out, Param::NameStartsWith, &self.name_starts_with);
        emit_number(&mut out, Param::Offset, &self.offset);
        emit_text(&mut out, Param::OrderBy, &self.order_by);
        emit_text(&mut out, Param::Series, &self.series);
        emit_text(&mut out, Param::Stories, &self.stories);
        out
    }
}

/// Optional conditions on a listing of comics; unset fields are not sent.
#[derive(Debug)]
pub struct ComicsFilter {
    /// Filter by the issue format (e.g. comic, digital comic, hardcover).
    pub format: Option<String>,
    /// Filter by the issue format type (comic or collection).
    pub format_type: Option<String>,
    /// Exclude variants (alternate covers, secondary printings, director's cuts, etc.).
    pub no_variants: Option<bool>,
    /// Return comics within a predefined date range.
    pub date_descriptor: Option<String>,
    /// Return comics within a date range: two dates separated by a comma.
    pub date_range: Option<String>,
    /// Return only issues in series whose title matches the input.
    pub title: Option<String>,
    /// Return only issues in series whose title starts with the input.
    pub title_starts_with: Option<String>,
    /// Return only issues in series whose start year matches the input.
    pub start_year: Option<u32>,
    /// Return only issues in series whose issue number matches the input.
    pub issue_number: Option<u32>,
    /// Filter by diamond code.
    pub diamond_code: Option<String>,
    /// Filter by digital comic id.
    pub digital_id: Option<u32>,
    /// Filter by UPC.
    pub upc: Option<String>,
    /// Filter by ISBN.
    pub isbn: Option<String>,
    /// Filter by EAN.
    pub ean: Option<String>,
    /// Filter by ISSN.
    pub issn: Option<String>,
    /// Include only results which are available digitally.
    pub has_digital_issue: Option<bool>,
    /// Return only comics which have been modified since the specified date.
    pub modified_since: Option<Timestamp>,
    /// Return only comics which feature work by the specified creators (a comma-separated list of ids).
    pub creators: Option<String>,
    /// Return only comics which feature the specified characters (a comma-separated list of ids).
    pub characters: Option<String>,
    /// Return only comics which are part of the specified series (a comma-separated list of ids).
    pub series: Option<String>,
    /// Return only comics which take place in the specified events (a comma-separated list of ids).
    pub events: Option<String>,
    /// Return only comics which contain the specified stories (a comma-separated list of ids).
    pub stories: Option<String>,
    /// Return only comics in which the specified characters appear together.
    pub shared_appearances: Option<String>,
    /// Return only comics in which the specified creators worked together.
    pub collaborators: Option<String>,
    /// Order the result set by a field or fields; a leading `-` sorts descending.
    pub order_by: Option<String>,
    /// Limit the result set to the specified number of resources.
    pub limit: Option<u32>,
    /// Skip the specified number of resources in the result set.
    pub offset: Option<u32>,
}

impl ComicsFilter {
    /// A filter with no field set.
    pub fn new() -> (r: Self)
        ensures
            r.format is None,
            r.format_type is None,
            r.no_variants is None,
            r.date_descriptor is None,
            r.date_range is None,
            r.title is None,
            r.title_starts_with is None,
            r.start_year is None,
            r.issue_number is None,
            r.diamond_code is None,
            r.digital_id is None,
            r.upc is None,
            r.isbn is None,
            r.ean is None,
            r.issn is None,
            r.has_digital_issue is None,
            r.modified_since is None,
            r.creators is None,
            r.characters is None,
            r.series is None,
            r.events is None,
            r.stories is None,
            r.shared_appearances is None,
            r.collaborators is None,
            r.order_by is None,
            r.limit is None,
            r.offset is None,
    {
        ComicsFilter {
            format: None,
            format_type: None,
            no_variants: None,
            date_descriptor: None,
            date_range: None,
            title: None,
            title_starts_with: None,
            start_year: None,
            issue_number: None,
            diamond_code: None,
            digital_id: None,
            upc: None,
            isbn: None,
            ean: None,
            issn: None,
            has_digital_issue: None,
            modified_since: None,
            creators: None,
            characters: None,
            series: None,
            events: None,
            stories: None,
            shared_appearances: None,
            collaborators: None,
            order_by: None,
            limit: None,
            offset: None,
        }
    }
}

impl Filter for ComicsFilter {
    open spec fn table(&self) -> Seq<Field> {
        Seq::empty()
            .push(text_field(Param::Characters, self.characters))
            .push(text_field(Param::Collaborators, self.collaborators))
            .push(text_field(Param::Creators, self.creators))
            .push(text_field(Param::DateDescriptor, self.date_descriptor))
            .push(text_field(Param::DateRange, self.date_range))
            .push(text_field(Param::DiamondCode, self.diamond_code))
            .push(number_field(Param::DigitalId, self.digital_id))
            .push(text_field(Param::Ean, self.ean))
            .push(text_field(Param::Events, self.events))
            .push(text_field(Param::Format, self.format))
            .push(text_field(Param::FormatType, self.format_type))
            .push(flag_field(Param::HasDigitalIssue, self.has_digital_issue))
            .push(text_field(Param::Isbn, self.isbn))
            .push(text_field(Param::Issn, self.issn))
            .push(number_field(Param::IssueNumber, self.issue_number))
            .push(number_field(Param::Limit, self.limit))
            .push(time_field(Param::ModifiedSince, self.modified_since))
            .push(flag_field(Param::NoVariants, self.no_variants))
            .push(number_field(Param::Offset, self.offset))
            .push(text_field(Param::OrderBy, self.order_by))
            .push(text_field(Param::Series, self.series))
            .push(text_field(Param::SharedAppearances, self.shared_appearances))
            .push(number_field(Param::StartYear, self.start_year))
            .push(text_field(Param::Stories, self.stories))
            .push(text_field(Param::Title, self.title))
            .push(text_field(Param::TitleStartsWith, self.title_starts_with))
            .push(text_field(Param::Upc, self.upc))
    }

    proof fn lemma_table_ascending(&self) {
        let t0 = Seq::<Field>::empty();
        lemma_ascending_push(t0, text_field(Param::Characters, self.characters));
        let t1 = t0.push(text_field(Param::Characters, self.characters));
        lemma_ascending_push(t1, text_field(Param::Collaborators, self.collaborators));
        let t2 = t1.push(text_field(Param::Collaborators, self.collaborators));
        lemma_ascending_push(t2, text_field(Param::Creators, self.creators));
        let t3 = t2.push(text_field(Param::Creators, self.creators));
        lemma_ascending_push(t3, text_field(Param::DateDescriptor, self.date_descriptor));
        let t4 = t3.push(text_field(Param::DateDescriptor, self.date_descriptor));
        lemma_ascending_push(t4, text_field(Param::DateRange, self.date_range));
        let t5 = t4.push(text_field(Param::DateRange, self.date_range));
        lemma_ascending_push(t5, text_field(Param::DiamondCode, self.diamond_code));
        let t6 = t5.push(text_field(Param::DiamondCode, self.diamond_code));
        lemma_ascending_push(t6, number_field(Param::DigitalId, self.digital_id));
        let t7 = t6.push(number_field(Param::DigitalId, self.digital_id));
        lemma_ascending_push(t7, text_field(Param::Ean, self.ean));
        let t8 = t7.push(text_field(Param::Ean, self.ean));
        lemma_ascending_push(t8, text_field(Param::Events, self.events));
        let t9 = t8.push(text_field(Param::Events, self.events));
        lemma_ascending_push(t9, text_field(Param::Format, self.format));
        let t10 = t9.push(text_field(Param::Format, self.format));
        lemma_ascending_push(t10, text_field(Param::FormatType, self.format_type));
        let t11 = t10.push(text_field(Param::FormatType, self.format_type));
        lemma_ascending_push(t11, flag_field(Param::HasDigitalIssue, self.has_digital_issue));
        let t12 = t11.push(flag_field(Param::HasDigitalIssue, self.has_digital_issue));
        lemma_ascending_push(t12, text_field(Param::Isbn, self.isbn));
        let t13 = t12.push(text_field(Param::Isbn, self.isbn));
        lemma_ascending_push(t13, text_field(Param::Issn, self.issn));
        let t14 = t13.push(text_field(Param::Issn, self.issn));
        lemma_ascending_push(t14, number_field(Param::IssueNumber, self.issue_number));
        let t15 = t14.push(number_field(Param::IssueNumber, self.issue_number));
        lemma_ascending_push(t15, number_field(Param::Limit, self.limit));
        let t16 = t15.push(number_field(Param::Limit, self.limit));
        lemma_ascending_push(t16, time_field(Param::ModifiedSince, self.modified_since));
        let t17 = t16.push(time_field(Param::ModifiedSince, self.modified_since));
        lemma_ascending_push(t17, flag_field(Param::NoVariants, self.no_variants));
        let t18 = t17.push(flag_field(Param::NoVariants, self.no_variants));
        lemma_ascending_push(t18, number_field(Param::Offset, self.offset));
        let t19 = t18.push(number_field(Param::Offset, self.offset));
        lemma_ascending_push(t19, text_field(Param::OrderBy, self.order_by));
        let t20 = t19.push(text_field(Param::OrderBy, self.order_by));
        lemma_ascending_push(t20, text_field(Param::Series, self.series));
        let t21 = t20.push(text_field(Param::Series, self.series));
        lemma_ascending_push(t21, text_field(Param::SharedAppearances, self.shared_appearances));
        let t22 = t21.push(text_field(Param::SharedAppearances, self.shared_appearances));
        lemma_ascending_push(t22, number_field(Param::StartYear, self.start_year));
        let t23 = t22.push(number_field(Param::StartYear, self.start_year));
        lemma_ascending_push(t23, text_field(Param::Stories, self.stories));
        let t24 = t23.push(text_field(Param::Stories, self.stories));
        lemma_ascending_push(t24, text_field(Param::Title, self.title));
        let t25 = t24.push(text_field(Param::Title, self.title));
        lemma_ascending_push(t25, text_field(Param::TitleStartsWith, self.title_starts_with));
        let t26 = t25.push(text_field(Param::TitleStartsWith, self.title_starts_with));
        lemma_ascending_push(t26, text_field(Param::Upc, self.upc));
        let t27 = t26.push(text_field(Param::Upc, self.upc));
        assert(t27 == self.table());
    }

    fn query_params(&self) -> (r: Vec<QueryParam>) {
        broadcast use lemma_emitted_push;

        let mut out: Vec<QueryParam> = Vec::new();
        assert(pairs_view(out@) =~= emitted(Seq::empty()));
        emit_text(&mut out, Param::Characters, &self.characters);
        emit_text(&mut out, Param::Collaborators, &self.collaborators);
        emit_text(&mut out, Param::Creators, &self.creators);
        emit_text(&mut out, Param::DateDescriptor, &self.date_descriptor);
        emit_text(&mut out, Param::DateRange, &self.date_range);
        emit_text(&mut out, Param::DiamondCode, &self.diamond_code);
        emit_number(&mut out, Param::DigitalId, &self.digital_id);
        emit_text(&mut out, Param::Ean, &self.ean);
        emit_text(&mut out, Param::Events, &self.events);
        emit_text(&mut out, Param::Format, &self.format);
        emit_text(&mut out, Param::FormatType, &self.format_type);
        emit_flag(&mut out, Param::HasDigitalIssue, &self.has_digital_issue);
        emit_text(&mut out, Param::Isbn, &self.isbn);
        emit_text(&mut out, Param::Issn, &self.issn);
        emit_number(&mut out, Param::IssueNumber, &self.issue_number);
        emit_number(&mut out, Param::Limit, &self.limit);
        emit_time(&mut out, Param::ModifiedSince, &self.modified_since);
        emit_flag(&mut out, Param::NoVariants, &self.no_variants);
        emit_number(&mut out, Param::Offset, &self.offset);
        emit_text(&mut out, Param::OrderBy, &self.order_by);
        emit_text(&mut out, Param::Series, &self.series);
        emit_text(&mut out, Param::SharedAppearances, &self.shared_appearances);
        emit_number(&mut out, Param::StartYear, &self.start_year);
        emit_text(&mut out, Param::Stories, &self.stories);
        emit_text(&mut out, Param::Title, &self.title);
        emit_text(&mut out, Param::TitleStartsWith, &self.title_starts_with);
        emit_text(&mut out, Param::Upc, &self.upc);
        out
    }
}

/// Optional conditions on a listing of creators; unset fields are not sent.
#[derive(Debug)]
pub struct CreatorsFilter {
    /// Filter by creator first name (e.g. Brian).
    pub first_name: Option<String>,
    /// Filter by creator middle name (e.g. Michael).
    pub middle_name: Option<String>,
    /// Filter by creator last name (e.g. Bendis).
    pub last_name: Option<String>,
    /// Filter by suffix or honorific (e.g. Jr., Sr.).
    pub suffix: Option<String>,
    /// Filter by creator names that match critera (e.g. B, St L).
    pub name_starts_with: Option<String>,
    /// Filter by creator first names that match critera (e.g. B, St L).
    pub first_name_starts_with: Option<String>,
    /// Filter by creator middle names that match critera (e.g. Mi).
    pub middle_name_starts_with: Option<String>,
    /// Filter by creator last names that match critera (e.g. Ben).
    pub last_name_starts_with: Option<String>,
    /// Return only creators which have been modified since the specified date.
    pub modified_since: Option<Timestamp>,
    /// Return only creators who worked on the specified comics (a comma-separated list of ids).
    pub comics: Option<String>,
    /// Return only creators who worked on the specified series (a comma-separated list of ids).
    pub series: Option<String>,
    /// Return only creators who worked on comics that took place in the specified events (a comma-separated list of ids).
    pub events: Option<String>,
    /// Return only creators who worked on the specified stories (a comma-separated list of ids).
    pub stories: Option<String>,
    /// Order the result set by a field or fields; a leading `-` sorts descending.
    pub order_by: Option<String>,
    /// Limit the result set to the specified number of resources.
    pub limit: Option<u32>,
    /// Skip the specified number of resources in the result set.
    pub offset: Option<u32>,
}

impl CreatorsFilter {
    /// A filter with no field set.
    pub fn new() -> (r: Self)
        ensures
            r.first_name is None,
            r.middle_name is None,
            r.last_name is None,
            r.suffix is None,
            r.name_starts_with is None,
            r.first_name_starts_with is None,
            r.middle_name_starts_with is None,
            r.last_name_starts_with is None,
            r.modified_since is None,
            r.comics is None,
            r.series is None,
            r.events is None,
            r.stories is None,
            r.order_by is None,
            r.limit is None,
            r.offset is None,
    {
        CreatorsFilter {
            first_name: None,
            middle_name: None,
            last_name: None,
            suffix: None,
            name_starts_with: None,
            first_name_starts_with: None,
            middle_name_starts_with: None,
            last_name_starts_with: None,
            modified_since: None,
            comics: None,
            series: None,
            events: None,
            stories: None,
            order_by: None,
            limit: None,
            offset: None,
        }
    }
}

impl Filter for CreatorsFilter {
    open spec fn table(&self) -> Seq<Field> {
        Seq::empty()
            .push(text_field(Param::Comics, self.comics))
            .push(text_field(Param::Events, self.events))
            .push(text_field(Param::FirstName, self.first_name))
            .push(text_field(Param::FirstNameStartsWith, self.first_name_starts_with))
            .push(text_field(Param::LastName, self.last_name))
            .push(text_field(Param::LastNameStartsWith, self.last_name_starts_with))
            .push(number_field(Param::Limit, self.limit))
            .push(text_field(Param::MiddleName, self.middle_name))
            .push(text_field(Param::MiddleNameStartsWith, self.middle_name_starts_with))
            .push(time_field(Param::ModifiedSince, self.modified_since))
            .push(text_field(Param::NameStartsWith, self.name_starts_with))
            .push(number_field(Param::Offset, self.offset))
            .push(text_field(Param::OrderBy, self.order_by))
            .push(text_field(Param::Series, self.series))
            .push(text_field(Param::Stories, self.stories))
            .push(text_field(Param::Suffix, self.suffix))
    }

    proof fn lemma_table_ascending(&self) {
        let t0 = Seq::<Field>::empty();
        lemma_ascending_push(t0, text_field(Param::Comics, self.comics));
        let t1 = t0.push(text_field(Param::Comics, self.comics));
        lemma_ascending_push(t1, text_field(Param::Events, self.events));
        let t2 = t1.push(text_field(Param::Events, self.events));
        lemma_ascending_push(t2, text_field(Param::FirstName, self.first_name));
        let t3 = t2.push(text_field(Param::FirstName, self.first_name));
        lemma_ascending_push(t3, text_field(Param::FirstNameStartsWith, self.first_name_starts_with));
        let t4 = t3.push(text_field(Param::FirstNameStartsWith, self.first_name_starts_with));
        lemma_ascending_push(t4, text_field(Param::LastName, self.last_name));
        let t5 = t4.push(text_field(Param::LastName, self.last_name));
        lemma_ascending_push(t5, text_field(Param::LastNameStartsWith, self.last_name_starts_with));
        let t6 = t5.push(text_field(Param::LastNameStartsWith, self.last_name_starts_with));
        lemma_ascending_push(t6, number_field(Param::Limit, self.limit));
        let t7 = t6.push(number_field(Param::Limit, self.limit));
        lemma_ascending_push(t7, text_field(Param::MiddleName, self.middle_name));
        let t8 = t7.push(text_field(Param::MiddleName, self.middle_name));
        lemma_ascending_push(t8, text_field(Param::MiddleNameStartsWith, self.middle_name_starts_with));
        let t9 = t8.push(text_field(Param::MiddleNameStartsWith, self.middle_name_starts_with));
        lemma_ascending_push(t9, time_field(Param::ModifiedSince, self.modified_since));
        let t10 = t9.push(time_field(Param::ModifiedSince, self.modified_since));
        lemma_ascending_push(t10, text_field(Param::NameStartsWith, self.name_starts_with));
        let t11 = t10.push(text_field(Param::NameStartsWith, self.name_starts_with));
        lemma_ascending_push(t11, number_field(Param::Offset, self.offset));
        let t12 = t11.push(number_field(Param::Offset, self.offset));
        lemma_ascending_push(t12, text_field(Param::OrderBy, self.order_by));
        let t13 = t12.push(text_field(Param::OrderBy, self.order_by));
        lemma_ascending_push(t13, text_field(Param::Series, self.series));
        let t14 = t13.push(text_field(Param::Series, self.series));
        lemma_ascending_push(t14, text_field(Param::Stories, self.stories));
        let t15 = t14.push(text_field(Param::Stories, self.stories));
        lemma_ascending_push(t15, text_field(Param::Suffix, self.suffix));
        let t16 = t15.push(text_field(Param::Suffix, self.suffix));
        assert(t16 == self.table());
    }

    fn query_params(&self) -> (r: Vec<QueryParam>) {
        broadcast use lemma_emitted_push;

        let mut out: Vec<QueryParam> = Vec::new();
        assert(pairs_view(out@) =~= emitted(Seq::empty()));
        emit_text(&mut out, Param::Comics, &self.comics);
        emit_text(&mut out, Param::Events, &self.events);
        emit_text(&mut out, Param::FirstName, &self.first_name);
        emit_text(&mut out, Param::FirstNameStartsWith, &self.first_name_starts_with);
        emit_text(&mut out, Param::LastName, &self.last_name);
        emit_text(&mut out, Param::LastNameStartsWith, &self.last_name_starts_with);
        emit_number(&mut out, Param::Limit, &self.limit);
        emit_text(&mut out, Param::MiddleName, &self.middle_name);
        emit_text(&mut out, Param::MiddleNameStartsWith, &self.middle_name_starts_with);
        emit_time(&mut out, Param::ModifiedSince, &self.modified_since);
        emit_text(&mut out, Param::NameStartsWith, &self.name_starts_with);
        emit_number(&mut out, Param::Offset, &self.offset);
        emit_text(&mut out, Param::OrderBy, &self.order_by);
        emit_text(&mut out, Param::Series, &self.series);
        emit_text(&mut out, Param::Stories, &self.stories);
        emit_text(&mut out, Param::Suffix, &self.suffix);
        out
    }
}

/// Optional conditions on a listing of events; unset fields are not sent.
#[derive(Debug)]
pub struct EventsFilter {
    /// Return only events which match the specified name.
    pub name: Option<String>,
    /// Return events with names that begin with the specified string (e.g. Sp).
    pub name_starts_with: Option<String>,
    /// Return only events which have been modified since the specified date.
    pub modified_since: Option<Timestamp>,
    /// Return only events which feature work by the specified creators (a comma-separated list of ids).
    pub creators: Option<String>,
    /// Return only events which feature the specified characters (a comma-separated list of ids).
    pub characters: Option<String>,
    /// Return only events which are part of the specified series (a comma-separated list of ids).
    pub series: Option<String>,
    /// Return only events which take place in the specified comics (a comma-separated list of ids).
    pub comics: Option<String>,
    /// Return only events which take place in the specified stories (a comma-separated list of ids).
    pub stories: Option<String>,
    /// Order the result set by a field or fields; a leading `-` sorts descending.
    pub order_by: Option<String>,
    /// Limit the result set to the specified number of resources.
    pub limit: Option<u32>,
    /// Skip the specified number of resources in the result set.
    pub offset: Option<u32>,
}

impl EventsFilter {
    /// A filter with no field set.
    pub fn new() -> (r: Self)
        ensures
            r.name is None,
            r.name_starts_with is None,
            r.modified_since is None,
            r.creators is None,
            r.characters is None,
            r.series is None,
            r.comics is None,
            r.stories is None,
            r.order_by is None,
            r.limit is None,
            r.offset is None,
    {
        EventsFilter {
            name: None,
            name_starts_with: None,
            modified_since: None,
            creators: None,
            characters: None,
            series: None,
            comics: None,
            stories: None,
            order_by: None,
            limit: None,
            offset: None,
        }
    }
}

impl Filter for EventsFilter {
    open spec fn table(&self) -> Seq<Field> {
        Seq::empty()
            .push(text_field(Param::Characters, self.characters))
            .push(text_field(Param::Comics, self.comics))
            .push(text_field(Param::Creators, self.creators))
            .push(number_field(Param::Limit, self.limit))
            .push(time_field(Param::ModifiedSince, self.modified_since))
            .push(text_field(Param::Name, self.name))
            .push(text_field(Param::NameStartsWith, self.name_starts_with))
            .push(number_field(Param::Offset, self.offset))
            .push(text_field(Param::OrderBy, self.order_by))
            .push(text_field(Param::Series, self.series))
            .push(text_field(Param::Stories, self.stories))
    }

    proof fn lemma_table_ascending(&self) {
        let t0 = Seq::<Field>::empty();
        lemma_ascending_push(t0, text_field(Param::Characters, self.characters));
        let t1 = t0.push(text_field(Param::Characters, self.characters));
        lemma_ascending_push(t1, text_field(Param::Comics, self.comics));
        let t2 = t1.push(text_field(Param::Comics, self.comics));
        lemma_ascending_push(t2, text_field(Param::Creators, self.creators));
        let t3 = t2.push(text_field(Param::Creators, self.creators));
        lemma_ascending_push(t3, number_field(Param::Limit, self.limit));
        let t4 = t3.push(number_field(Param::Limit, self.limit));
        lemma_ascending_push(t4, time_field(Param::ModifiedSince, self.modified_since));
        let t5 = t4.push(time_field(Param::ModifiedSince, self.modified_since));
        lemma_ascending_push(t5, text_field(Param::Name, self.name));
        let t6 = t5.push(text_field(Param::Name, self.name));
        lemma_ascending_push(t6, text_field(Param::NameStartsWith, self.name_starts_with));
        let t7 = t6.push(text_field(Param::NameStartsWith, self.name_starts_with));
        lemma_ascending_push(t7, number_field(Param::Offset, self.offset));
        let t8 = t7.push(number_field(Param::Offset, self.offset));
        lemma_ascending_push(t8, text_field(Param::OrderBy, self.order_by));
        let t9 = t8.push(text_field(Param::OrderBy, self.order_by));
        lemma_ascending_push(t9, text_field(Param::Series, self.series));
        let t10 = t9.push(text_field(Param::Series, self.series));
        lemma_ascending_push(t10, text_field(Param::Stories, self.stories));
        let t11 = t10.push(text_field(Param::Stories, self.stories));
        assert(t11 == self.table());
    }

    fn query_params(&self) -> (r: Vec<QueryParam>) {
        broadcast use lemma_emitted_push;

        let mut out: Vec<QueryParam> = Vec::new();
        assert(pairs_view(out@) =~= emitted(Seq::empty()));
        emit_text(&mut out, Param::Characters, &self.characters);
        emit_text(&mut out, Param::Comics, &self.comics);
        emit_text(&mut out, Param::Creators, &self.creators);
        emit_number(&mut out, Param::Limit, &self.limit);
        emit_time(&mut out, Param::ModifiedSince, &self.modified_since);
        emit_text(&mut out, Param::Name, &self.name);
        emit_text(&mut out, Param::NameStartsWith, &self.name_starts_with);
        emit_number(&mut out, Param::Offset, &self.offset);
        emit_text(&mut out, Param::OrderBy, &self.order_by);
        emit_text(&mut out, Param::Series, &self.series);
        emit_text(&mut out, Param::Stories, &self.stories);
        out
    }
}

/// Optional conditions on a listing of series; unset fields are not sent.
#[derive(Debug)]
pub struct SeriesFilter {
    /// Return only series matching the specified title.
    pub title: Option<String>,
    /// Return series with titles that begin with the specified string (e.g. Sp).
    pub title_starts_with: Option<String>,
    /// Return only series matching the specified start year.
    pub start_year: Option<u32>,
    /// Return only series which have been modified since the specified date.
    pub modified_since: Option<Timestamp>,
    /// Return only series which contain the specified comics (a comma-separated list of ids).
    pub comics: Option<String>,
    /// Return only series which contain the specified stories (a comma-separated list of ids).
    pub stories: Option<String>,
    /// Return only series which have comics that take place during the specified events (a comma-separated list of ids).
    pub events: Option<String>,
    /// Return only series which feature work by the specified creators (a comma-separated list of ids).
    pub creators: Option<String>,
    /// Return only series which feature the specified characters (a comma-separated list of ids).
    pub characters: Option<String>,
    /// Filter the series by publication frequency type.
    pub series_type: Option<String>,
    /// Return only series containing one or more comics with the specified format.
    pub contains: Option<String>,
    /// Order the result set by a field or fields; a leading `-` sorts descending.
    pub order_by: Option<String>,
    /// Limit the result set to the specified number of resources.
    pub limit: Option<u32>,
    /// Skip the specified number of resources in the result set.
    pub offset: Option<u32>,
}

impl SeriesFilter {
    /// A filter with no field set.
    pub fn new() -> (r: Self)
        ensures
            r.title is None,
            r.title_starts_with is None,
            r.start_year is None,
            r.modified_since is None,
            r.comics is None,
            r.stories is None,
            r.events is None,
            r.creators is None,
            r.characters is None,
            r.series_type is None,
            r.contains is None,
            r.order_by is None,
            r.limit is None,
            r.offset is None,
    {
        SeriesFilter {
            title: None,
            title_starts_with: None,
            start_year: None,
            modified_since: None,
            comics: None,
            stories: None,
            events: None,
            creators: None,
            characters: None,
            series_type: None,
            contains: None,
            order_by: None,
            limit: None,
            offset: None,
        }
    }
}

impl Filter for SeriesFilter {
    open spec fn table(&self) -> Seq<Field> {
        Seq::empty()
            .push(text_field(Param::Characters, self.characters))
            .push(text_field(Param::Comics, self.comics))
            .push(text_field(Param::Contains, self.contains))
            .push(text_field(Param::Creators, self.creators))
            .push(text_field(Param::Events, self.events))
            .push(number_field(Param::Limit, self.limit))
            .push(time_field(Param::ModifiedSince, self.modified_since))
            .push(number_field(Param::Offset, self.offset))
            .push(text_field(Param::OrderBy, self.order_by))
            .push(text_field(Param::SeriesType, self.series_type))
            .push(number_field(Param::StartYear, self.start_year))
            .push(text_field(Param::Stories, self.stories))
            .push(text_field(Param::Title, self.title))
            .push(text_field(Param::TitleStartsWith, self.title_starts_with))
    }

    proof fn lemma_table_ascending(&self) {
        let t0 = Seq::<Field>::empty();
        lemma_ascending_push(t0, text_field(Param::Characters, self.characters));
        let t1 = t0.push(text_field(Param::Characters, self.characters));
        lemma_ascending_push(t1, text_field(Param::Comics, self.comics));
        let t2 = t1.push(text_field(Param::Comics, self.comics));
        lemma_ascending_push(t2, text_field(Param::Contains, self.contains));
        let t3 = t2.push(text_field(Param::Contains, self.contains));
        lemma_ascending_push(t3, text_field(Param::Creators, self.creators));
        let t4 = t3.push(text_field(Param::Creators, self.creators));
        lemma_ascending_push(t4, text_field(Param::Events, self.events));
        let t5 = t4.push(text_field(Param::Events, self.events));
        lemma_ascending_push(t5, number_field(Param::Limit, self.limit));
        let t6 = t5.push(number_field(Param::Limit, self.limit));
        lemma_ascending_push(t6, time_field(Param::ModifiedSince, self.modified_since));
        let t7 = t6.push(time_field(Param::ModifiedSince, self.modified_since));
        lemma_ascending_push(t7, number_field(Param::Offset, self.offset));
        let t8 = t7.push(number_field(Param::Offset, self.offset));
        lemma_ascending_push(t8, text_field(Param::OrderBy, self.order_by));
        let t9 = t8.push(text_field(Param::OrderBy, self.order_by));
        lemma_ascending_push(t9, text_field(Param::SeriesType, self.series_type));
        let t10 = t9.push(text_field(Param::SeriesType, self.series_type));
        lemma_ascending_push(t10, number_field(Param::StartYear, self.start_year));
        let t11 = t10.push(number_field(Param::StartYear, self.start_year));
        lemma_ascending_push(t11, text_field(Param::Stories, self.stories));
        let t12 = t11.push(text_field(Param::Stories, self.stories));
        lemma_ascending_push(t12, text_field(Param::Title, self.title));
        let t13 = t12.push(text_field(Param::Title, self.title));
        lemma_ascending_push(t13, text_field(Param::TitleStartsWith, self.title_starts_with));
        let t14 = t13.push(text_field(Param::TitleStartsWith, self.title_starts_with));
        assert(t14 == self.table());
    }

    fn query_params(&self) -> (r: Vec<QueryParam>) {
        broadcast use lemma_emitted_push;

        let mut out: Vec<QueryParam> = Vec::new();
        assert(pairs_view(out@) =~= emitted(Seq::empty()));
        emit_text(&mut out, Param::Characters, &self.characters);
        emit_text(&mut out, Param::Comics, &self.comics);
        emit_text(&mut out, Param::Contains, &self.contains);
        emit_text(&mut out, Param::Creators, &self.creators);
        emit_text(&mut out, Param::Events, &self.events);
        emit_number(&mut out, Param::Limit, &self.limit);
        emit_time(&mut out, Param::ModifiedSince, &self.modified_since);
        emit_number(&mut out, Param::Offset, &self.offset);
        emit_text(&mut out, Param::OrderBy, &self.order_by);
        emit_text(&mut out, Param::SeriesType, &self.series_type);
        emit_number(&mut out, Param::StartYear, &self.start_year);
        emit_text(&mut out, Param::Stories, &self.stories);
        emit_text(&mut out, Param::Title, &self.title);
        emit_text(&mut out, Param::TitleStartsWith, &self.title_starts_with);
        out
    }
}

/// Optional conditions on a listing of stories; unset fields are not sent.
#[derive(Debug)]
pub struct StoriesFilter {
    /// Return only stories which have been modified since the specified date.
    pub modified_since: Option<Timestamp>,
    /// Return only stories contained in the specified comics (a comma-separated list of ids).
    pub comics: Option<String>,
    /// Return only stories contained in the specified series (a comma-separated list of ids).
    pub series: Option<String>,
    /// Return only stories which take place during the specified events (a comma-separated list of ids).
    pub events: Option<String>,
    /// Return only stories which feature work by the specified creators (a comma-separated list of ids).
    pub creators: Option<String>,
    /// Return only stories which feature the specified characters (a comma-separated list of ids).
    pub characters: Option<String>,
    /// Order the result set by a field or fields; a leading `-` sorts descending.
    pub order_by: Option<String>,
    /// Limit the result set to the specified number of resources.
    pub limit: Option<u32>,
    /// Skip the specified number of resources in the result set.
    pub offset: Option<u32>,
}

impl StoriesFilter {
    /// A filter with no field set.
    pub fn new() -> (r: Self)
        ensures
            r.modified_since is None,
            r.comics is None,
            r.series is None,
            r.events is None,
            r.creators is None,
            r.characters is None,
            r.order_by is None,
            r.limit is None,
            r.offset is None,
    {
        StoriesFilter {
            modified_since: None,
            comics: None,
            series: None,
            events: None,
            creators: None,
            characters: None,
            order_by: None,
            limit: None,
            offset: None,
        }
    }
}

impl Filter for StoriesFilter {
    open spec fn table(&self) -> Seq<Field> {
        Seq::empty()
            .push(text_field(Param::Characters, self.characters))
            .push(text_field(Param::Comics, self.comics))
            .push(text_field(Param::Creators, self.creators))
            .push(text_field(Param::Events, self.events))
            .push(number_field(Param::Limit, self.limit))
            .push(time_field(Param::ModifiedSince, self.modified_since))
            .push(number_field(Param::Offset, self.offset))
            .push(text_field(Param::OrderBy, self.order_by))
            .push(text_field(Param::Series, self.series))
    }

    proof fn lemma_table_ascending(&self) {
        let t0 = Seq::<Field>::empty();
        lemma_ascending_push(t0, text_field(Param::Characters, self.characters));
        let t1 = t0.push(text_field(Param::Characters, self.characters));
        lemma_ascending_push(t1, text_field(Param::Comics, self.comics));
        let t2 = t1.push(text_field(Param::Comics, self.comics));
        lemma_ascending_push(t2, text_field(Param::Creators, self.creators));
        let t3 = t2.push(text_field(Param::Creators, self.creators));
        lemma_ascending_push(t3, text_field(Param::Events, self.events));
        let t4 = t3.push(text_field(Param::Events, self.events));
        lemma_ascending_push(t4, number_field(Param::Limit, self.limit));
        let t5 = t4.push(number_field(Param::Limit, self.limit));
        lemma_ascending_push(t5, time_field(Param::ModifiedSince, self.modified_since));
        let t6 = t5.push(time_field(Param::ModifiedSince, self.modified_since));
        lemma_ascending_push(t6, number_field(Param::Offset, self.offset));
        let t7 = t6.push(number_field(Param::Offset, self.offset));
        lemma_ascending_push(t7, text_field(Param::OrderBy, self.order_by));
        let t8 = t7.push(text_field(Param::OrderBy, self.order_by));
        lemma_ascending_push(t8, text_field(Param::Series, self.series));
        let t9 = t8.push(text_field(Param::Series, self.series));
        assert(t9 == self.table());
    }

    fn query_params(&self) -> (r: Vec<QueryParam>) {
        broadcast use lemma_emitted_push;

        let mut out: Vec<QueryParam> = Vec::new();
        assert(pairs_view(out@) =~= emitted(Seq::empty()));
        emit_text(&mut out, Param::Characters, &self.characters);
        emit_text(&mut out, Param::Comics, &self.comics);
        emit_text(&mut out, Param::Creators, &self.creators);
        emit_text(&mut out, Param::Events, &self.events);
        emit_number(&mut out, Param::Limit, &self.limit);
        emit_time(&mut out, Param::ModifiedSince, &self.modified_since);
        emit_number(&mut out, Param::Offset, &self.offset);
        emit_text(&mut out, Param::OrderBy, &self.order_by);
        emit_text(&mut out, Param::Series, &self.series);
        out
    }
}

/// The pairs that an optional filter contributes: none when it is absent.
pub open spec fn filter_pairs<F: Filter>(filter: Option<F>) -> Seq<(Param, Seq<char>)> {
    match filter {
        Some(f) => emitted(f.table()),
        None => Seq::empty(),
    }
}

/// The query pairs of an optional filter.
pub fn optional_params<F: Filter>(filter: &Option<F>) -> (r: Vec<QueryParam>)
    ensures
        pairs_view(r@) == filter_pairs(*filter),
{
    match filter {
        Some(f) => f.query_params(),
        None => {
            let out: Vec<QueryParam> = Vec::new();
            assert(pairs_view(out@) =~= Seq::<(Param, Seq<char>)>::empty());
            out
        },
    }
}

/// For every filter, a field left unset never appears as a query key, a
/// field set to a value appears under its own wire key, and reading the
/// query back by that key gives the field's value.
pub proof fn lemma_filter_fields<F: Filter>(f: F, i: int)
    requires
        0 <= i < f.table().len(),
    ensures
        (exists|j: int| 0 <= j < emitted(f.table()).len() && #[trigger] emitted(f.table())[j].0 == f.table()[i].0)
            <==> f.table()[i].1 is Some,
        value_of(emitted(f.table()), f.table()[i].0) == f.table()[i].1,
{
    f.lemma_table_ascending();
    lemma_fields_round_trip(f.table(), i);
}

/// For every filter, each query pair comes from a field of the filter that
/// is set to exactly that value.
pub proof fn lemma_filter_pairs_from_fields<F: Filter>(f: F, j: int)
    requires
        0 <= j < emitted(f.table()).len(),
    ensures
        exists|i: int|
            0 <= i < f.table().len() && #[trigger] f.table()[i].0 == emitted(f.table())[j].0 && f.table()[i].1
                == Some(emitted(f.table())[j].1),
{
    lemma_emitted_from_table(f.table(), j);
}

/// What reading `k` back from a query as a 32-bit number gives.
pub open spec fn decoded_number(q: Seq<(Param, Seq<char>)>, k: Param) -> Option<u32> {
    match value_of(q, k) {
        Some(v) => u32_of_text(v),
        None => None,
    }
}

/// Encoding a characters filter and decoding the query again gives back the
/// limit, offset and name that were set, and nothing for those left unset.
pub proof fn lemma_characters_query_round_trip(f: CharactersFilter)
    ensures
        decoded_number(emitted(f.table()), Param::Limit) == f.limit,
        decoded_number(emitted(f.table()), Param::Offset) == f.offset,
        value_of(emitted(f.table()), Param::Name) == text_field(Param::Name, f.name).1,
{
    let t = f.table();
    f.lemma_table_ascending();
    assert(t[2].0 == Param::Limit && t[4].0 == Param::Name && t[6].0 == Param::Offset);
    lemma_fields_round_trip(t, 2);
    lemma_fields_round_trip(t, 4);
    lemma_fields_round_trip(t, 6);
    if let Some(n) = f.limit {
        lemma_u32_text_round_trip(n);
    }
    if let Some(n) = f.offset {
        lemma_u32_text_round_trip(n);
    }
}

} // verus!
