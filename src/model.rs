//! The resources of the catalog, and for each kind the calls that read it.
//! A call is described by a `Request`; the client signs it and a transport
//! sends it.

use vstd::prelude::*;
use crate::endpoint::{
    collection_path, item_path, item_request, list_request, relation_path, relation_request, Endpoint, Method,
    Request, Resource,
};
use crate::filters::{
    filter_pairs, CharactersFilter, ComicsFilter, CreatorsFilter, EventsFilter, Filter, SeriesFilter, StoriesFilter,
};
use crate::query::{emitted, pairs_view, QueryParam};
use crate::time::Timestamp;

verus! {

/// An image: a directory path and a file extension.
#[derive(Debug)]
pub struct Image {
    /// The directory path of the image.
    pub path: Option<String>,
    /// The file extension of the image.
    pub extension: Option<String>,
}

/// A public web page of a resource.
#[derive(Debug)]
pub struct Url {
    /// A text identifier for the URL.
    pub kind: Option<String>,
    /// A full URL (including scheme, domain, and path).
    pub url: Option<String>,
}

/// A piece of descriptive text.
#[derive(Debug)]
pub struct TextObject {
    pub kind: Option<String>,
    pub language: Option<String>,
    pub text: Option<String>,
}

/// A lightweight reference to another resource.
#[derive(Debug)]
pub struct Summary {
    pub resource_uri: Option<String>,
    pub name: Option<String>,
    /// The role of a creator, or the type of a story.
    pub kind: Option<String>,
}

/// A list of references to related resources.
#[derive(Debug)]
pub struct DataList {
    /// How many there are in all; at least `returned`.
    pub available: Option<u32>,
    /// How many are in `items` (up to 20).
    pub returned: Option<u32>,
    pub collection_uri: Option<String>,
    pub items: Vec<Summary>,
}

/// A key date of a comic.
#[derive(Debug)]
pub struct ComicDate {
    pub kind: Option<String>,
    pub date: Option<Timestamp>,
}

/// A price of a comic.
#[derive(Debug)]
pub struct ComicPrice {
    pub kind: Option<String>,
    /// The price in cents.
    pub price: Option<u32>,
}

/// A key date, as the envelope's schema names it.
pub type Date = ComicDate;

/// A price, as the envelope's schema names it.
pub type Price = ComicPrice;

/// A list of references to character resources.
#[derive(Debug)]
pub struct CharacterList {
    pub available: Option<u32>,
    pub returned: Option<u32>,
    pub collection_uri: Option<String>,
    pub items: Vec<CharacterSummary>,
}

/// A reference to a character resource.
#[derive(Debug)]
pub struct CharacterSummary {
    pub resource_uri: Option<String>,
    pub name: Option<String>,
    pub role: Option<String>,
}

/// A list of references to comic resources.
#[derive(Debug)]
pub struct ComicList {
    pub available: Option<u32>,
    pub returned: Option<u32>,
    pub collection_uri: Option<String>,
    pub items: Vec<ComicSummary>,
}

/// A reference to a comic resource.
#[derive(Debug)]
pub struct ComicSummary {
    pub resource_uri: Option<String>,
    pub name: Option<String>,
}

/// A list of references to creator resources.
#[derive(Debug)]
pub struct CreatorList {
    pub available: Option<u32>,
    pub returned: Option<u32>,
    pub collection_uri: Option<String>,
    pub items: Vec<CreatorSummary>,
}

/// A reference to a creator resource.
#[derive(Debug)]
pub struct CreatorSummary {
    pub resource_uri: Option<String>,
    pub name: Option<String>,
    pub role: Option<String>,
}

/// A list of references to event resources.
#[derive(Debug)]
pub struct EventList {
    pub available: Option<u32>,
    pub returned: Option<u32>,
    pub collection_uri: Option<String>,
    pub items: Vec<EventSummary>,
}

/// A reference to a event resource.
#[derive(Debug)]
pub struct EventSummary {
    pub resource_uri: Option<String>,
    pub name: Option<String>,
}

/// A list of references to series resources.
#[derive(Debug)]
pub struct SeriesList {
    pub available: Option<u32>,
    pub returned: Option<u32>,
    pub collection_uri: Option<String>,
    pub items: Vec<SeriesSummary>,
}

/// A reference to a series resource.
#[derive(Debug)]
pub struct SeriesSummary {
    pub resource_uri: Option<String>,
    pub name: Option<String>,
}

/// A list of references to story resources.
#[derive(Debug)]
pub struct StoryList {
    pub available: Option<u32>,
    pub returned: Option<u32>,
    pub collection_uri: Option<String>,
    pub items: Vec<StorySummary>,
}

/// A reference to a story resource.
#[derive(Debug)]
pub struct StorySummary {
    pub resource_uri: Option<String>,
    pub name: Option<String>,
    pub kind: Option<String>,
}

/// A character resource.
#[derive(Debug)]
pub struct Character {
    pub id: Option<u32>,
    pub name: Option<String>,
    pub description: Option<String>,
    pub modified: Option<Timestamp>,
    pub resource_uri: Option<String>,
    pub urls: Vec<Url>,
    pub thumbnail: Option<Image>,
    pub comics: Option<ComicList>,
    pub stories: Option<StoryList>,
    pub events: Option<EventList>,
    pub series: Option<SeriesList>,
}

impl Character {
    /// Lists characters, narrowed by an optional filter.
    pub fn get_all(filter: Option<CharactersFilter>) -> (r: Request)
        ensures
            r.method == Method::Get,
            r.path@ == collection_path(Resource::Characters),
            pairs_view(r.params@) == filter_pairs(filter),
    {
        list_request(Resource::Characters, filter)
    }

    /// A single character, by id; the canonical address of the resource.
    pub fn get(id: u32) -> (r: Request)
        ensures
            r.method == Method::Get,
            r.path@ == item_path(Resource::Characters, id),
            r.params@.len() == 0,
    {
        item_request(Resource::Characters, id)
    }

    /// Lists the comics linked to one character, narrowed by an optional filter.
    pub fn get_comics(id: u32, filter: Option<ComicsFilter>) -> (r: Request)
        ensures
            r.method == Method::Get,
            r.path@ == relation_path(Resource::Characters, id, Resource::Comics),
            pairs_view(r.params@) == filter_pairs(filter),
    {
        relation_request(Resource::Characters, id, Resource::Comics, filter)
    }

    /// Lists the events linked to one character, narrowed by an optional filter.
    pub fn get_events(id: u32, filter: Option<EventsFilter>) -> (r: Request)
        ensures
            r.method == Method::Get,
            r.path@ == relation_path(Resource::Characters, id, Resource::Events),
            pairs_view(r.params@) == filter_pairs(filter),
    {
        relation_request(Resource::Characters, id, Resource::Events, filter)
    }

    /// Lists the series linked to one character, narrowed by an optional filter.
    pub fn get_series(id: u32, filter: Option<SeriesFilter>) -> (r: Request)
        ensures
            r.method == Method::Get,
            r.path@ == relation_path(Resource::Characters, id, Resource::Series),
            pairs_view(r.params@) == filter_pairs(filter),
    {
        relation_request(Resource::Characters, id, Resource::Series, filter)
    }

    /// Lists the stories linked to one character, narrowed by an optional filter.
    pub fn get_stories(id: u32, filter: Option<StoriesFilter>) -> (r: Request)
        ensures
            r.method == Method::Get,
            r.path@ == relation_path(Resource::Characters, id, Resource::Stories),
            pairs_view(r.params@) == filter_pairs(filter),
    {
        relation_request(Resource::Characters, id, Resource::Stories, filter)
    }
}

/// A comic resource.
#[derive(Debug)]
pub struct Comic {
    pub id: Option<u32>,
    pub digital_id: Option<u32>,
    pub title: Option<String>,
    pub issue_number: Option<u64>,
    pub variant_description: Option<String>,
    pub description: Option<String>,
    pub modified: Option<Timestamp>,
    pub isbn: Option<String>,
    pub upc: Option<String>,
    pub diamond_code: Option<String>,
    pub ean: Option<String>,
    pub issn: Option<String>,
    pub format: Option<String>,
    pub page_count: Option<u32>,
    pub text_objects: Vec<TextObject>,
    pub resource_uri: Option<String>,
    pub urls: Vec<Url>,
    pub series: Option<SeriesSummary>,
    pub variants: Vec<ComicSummary>,
    pub collections: Vec<ComicSummary>,
    pub collected_issues: Vec<ComicSummary>,
    pub dates: Vec<ComicDate>,
    pub prices: Vec<ComicPrice>,
    pub thumbnail: Option<Image>,
    pub images: Vec<Image>,
    pub creators: Option<CreatorList>,
    pub characters: Option<CharacterList>,
    pub stories: Option<StoryList>,
    pub events: Option<EventList>,
}

impl Comic {
    /// Lists comics, narrowed by an optional filter.
    pub fn get_all(filter: Option<ComicsFilter>) -> (r: Request)
        ensures
            r.method == Method::Get,
            r.path@ == collection_path(Resource::Comics),
            pairs_view(r.params@) == filter_pairs(filter),
    {
        list_request(Resource::Comics, filter)
    }

    /// A single comic, by id; the canonical address of the resource.
    pub fn get(id: u32) -> (r: Request)
        ensures
            r.method == Method::Get,
            r.path@ == item_path(Resource::Comics, id),
            r.params@.len() == 0,
    {
        item_request(Resource::Comics, id)
    }

    /// Lists the characters linked to one comic, narrowed by an optional filter.
    pub fn get_characters(id: u32, filter: Option<CharactersFilter>) -> (r: Request)
        ensures
            r.method == Method::Get,
            r.path@ == relation_path(Resource::Comics, id, Resource::Characters),
            pairs_view(r.params@) == filter_pairs(filter),
    {
        relation_request(Resource::Comics, id, Resource::Characters, filter)
    }

    /// Lists the creators linked to one comic, narrowed by an optional filter.
    pub fn get_creators(id: u32, filter: Option<CreatorsFilter>) -> (r: Request)
        ensures
            r.method == Method::Get,
            r.path@ == relation_path(Resource::Comics, id, Resource::Creators),
            pairs_view(r.params@) == filter_pairs(filter),
    {
        relation_request(Resource::Comics, id, Resource::Creators, filter)
    }

    /// Lists the events linked to one comic, narrowed by an optional filter.
    pub fn get_events(id: u32, filter: Option<EventsFilter>) -> (r: Request)
        ensures
            r.method == Method::Get,
            r.path@ == relation_path(Resource::Comics, id, Resource::Events),
            pairs_view(r.params@) == filter_pairs(filter),
    {
        relation_request(Resource::Comics, id, Resource::Events, filter)
    }

    /// Lists the stories linked to one comic, narrowed by an optional filter.
    pub fn get_stories(id: u32, filter: Option<StoriesFilter>) -> (r: Request)
        ensures
            r.method == Method::Get,
            r.path@ == relation_path(Resource::Comics, id, Resource::Stories),
            pairs_view(r.params@) == filter_pairs(filter),
    {
        relation_request(Resource::Comics, id, Resource::Stories, filter)
    }
}

/// A creator resource.
#[derive(Debug)]
pub struct Creator {
    pub id: Option<u32>,
    pub first_name: Option<String>,
    pub middle_name: Option<String>,
    pub last_name: Option<String>,
    pub suffix: Option<String>,
    pub full_name: Option<String>,
    pub modified: Option<Timestamp>,
    pub resource_uri: Option<String>,
    pub urls: Vec<Url>,
    pub thumbnail: Option<Image>,
    pub series: Option<SeriesList>,
    pub stories: Option<StoryList>,
    pub comics: Option<ComicList>,
    pub events: Option<EventList>,
}

impl Creator {
    /// Lists creators, narrowed by an optional filter.
    pub fn get_all(filter: Option<CreatorsFilter>) -> (r: Request)
        ensures
            r.method == Method::Get,
            r.path@ == collection_path(Resource::Creators),
            pairs_view(r.params@) == filter_pairs(filter),
    {
        list_request(Resource::Creators, filter)
    }

    /// A single creator, by id; the canonical address of the resource.
    pub fn get(id: u32) -> (r: Request)
        ensures
            r.method == Method::Get,
            r.path@ == item_path(Resource::Creators, id),
            r.params@.len() == 0,
    {
        item_request(Resource::Creators, id)
    }

    /// Lists the comics linked to one creator, narrowed by an optional filter.
    pub fn get_comics(id: u32, filter: Option<ComicsFilter>) -> (r: Request)
        ensures
            r.method == Method::Get,
            r.path@ == relation_path(Resource::Creators, id, Resource::Comics),
            pairs_view(r.params@) == filter_pairs(filter),
    {
        relation_request(Resource::Creators, id, Resource::Comics, filter)
    }

    /// Lists the events linked to one creator, narrowed by an optional filter.
    pub fn get_events(id: u32, filter: Option<EventsFilter>) -> (r: Request)
        ensures
            r.method == Method::Get,
            r.path@ == relation_path(Resource::Creators, id, Resource::Events),
            pairs_view(r.params@) == filter_pairs(filter),
    {
        relation_request(Resource::Creators, id, Resource::Events, filter)
    }

    /// Lists the series linked to one creator, narrowed by an optional filter.
    pub fn get_series(id: u32, filter: Option<SeriesFilter>) -> (r: Request)
        ensures
            r.method == Method::Get,
            r.path@ == relation_path(Resource::Creators, id, Resource::Series),
            pairs_view(r.params@) == filter_pairs(filter),
    {
        relation_request(Resource::Creators, id, Resource::Series, filter)
    }

    /// Lists the stories linked to one creator, narrowed by an optional filter.
    pub fn get_stories(id: u32, filter: Option<StoriesFilter>) -> (r: Request)
        ensures
            r.method == Method::Get,
            r.path@ == relation_path(Resource::Creators, id, Resource::Stories),
            pairs_view(r.params@) == filter_pairs(filter),
    {
        relation_request(Resource::Creators, id, Resource::Stories, filter)
    }
}

/// A event resource.
#[derive(Debug)]
pub struct Event {
    pub id: Option<u32>,
    pub title: Option<String>,
    pub description: Option<String>,
    pub resource_uri: Option<String>,
    pub urls: Vec<Url>,
    pub modified: Option<Timestamp>,
    pub start: Option<Timestamp>,
    pub end: Option<Timestamp>,
    pub thumbnail: Option<Image>,
    pub comics: Option<ComicList>,
    pub stories: Option<StoryList>,
    pub series: Option<SeriesList>,
    pub characters: Option<CharacterList>,
    pub creators: Option<CreatorList>,
    pub next: Option<EventSummary>,
    pub previous: Option<EventSummary>,
}

impl Event {
    /// Lists events, narrowed by an optional filter.
    pub fn get_all(filter: Option<EventsFilter>) -> (r: Request)
        ensures
            r.method == Method::Get,
            r.path@ == collection_path(Resource::Events),
            pairs_view(r.params@) == filter_pairs(filter),
    {
        list_request(Resource::Events, filter)
    }

    /// A single event, by id; the canonical address of the resource.
    pub fn get(id: u32) -> (r: Request)
        ensures
            r.method == Method::Get,
            r.path@ == item_path(Resource::Events, id),
            r.params@.len() == 0,
    {
        item_request(Resource::Events, id)
    }

    /// Lists the characters linked to one event, narrowed by an optional filter.
    pub fn get_characters(id: u32, filter: Option<CharactersFilter>) -> (r: Request)
        ensures
            r.method == Method::Get,
            r.path@ == relation_path(Resource::Events, id, Resource::Characters),
            pairs_view(r.params@) == filter_pairs(filter),
    {
        relation_request(Resource::Events, id, Resource::Characters, filter)
    }

    /// Lists the comics linked to one event, narrowed by an optional filter.
    pub fn get_comics(id: u32, filter: Option<ComicsFilter>) -> (r: Request)
        ensures
            r.method == Method::Get,
            r.path@ == relation_path(Resource::Events, id, Resource::Comics),
            pairs_view(r.params@) == filter_pairs(filter),
    {
        relation_request(Resource::Events, id, Resource::Comics, filter)
    }

    /// Lists the creators linked to one event, narrowed by an optional filter.
    pub fn get_creators(id: u32, filter: Option<CreatorsFilter>) -> (r: Request)
        ensures
            r.method == Method::Get,
            r.path@ == relation_path(Resource::Events, id, Resource::Creators),
            pairs_view(r.params@) == filter_pairs(filter),
    {
        relation_request(Resource::Events, id, Resource::Creators, filter)
    }

    /// Lists the series linked to one event, narrowed by an optional filter.
    pub fn get_series(id: u32, filter: Option<SeriesFilter>) -> (r: Request)
        ensures
            r.method == Method::Get,
            r.path@ == relation_path(Resource::Events, id, Resource::Series),
            pairs_view(r.params@) == filter_pairs(filter),
    {
        relation_request(Resource::Events, id, Resource::Series, filter)
    }

    /// Lists the stories linked to one event, narrowed by an optional filter.
    pub fn get_stories(id: u32, filter: Option<StoriesFilter>) -> (r: Request)
        ensures
            r.method == Method::Get,
            r.path@ == relation_path(Resource::Events, id, Resource::Stories),
            pairs_view(r.params@) == filter_pairs(filter),
    {
        relation_request(Resource::Events, id, Resource::Stories, filter)
    }
}

/// A series resource.
#[derive(Debug)]
pub struct Series {
    pub id: Option<u32>,
    pub title: Option<String>,
    pub description: Option<String>,
    pub resource_uri: Option<String>,
    pub urls: Vec<Url>,
    pub start_year: Option<u32>,
    pub end_year: Option<u32>,
    pub rating: Option<String>,
    pub modified: Option<Timestamp>,
    pub thumbnail: Option<Image>,
    pub comics: Option<ComicList>,
    pub stories: Option<StoryList>,
    pub events: Option<EventList>,
    pub characters: Option<CharacterList>,
    pub creators: Option<CreatorList>,
    pub next: Option<SeriesSummary>,
    pub previous: Option<SeriesSummary>,
}

impl Series {
    /// Lists series, narrowed by an optional filter.
    pub fn get_all(filter: Option<SeriesFilter>) -> (r: Request)
        ensures
            r.method == Method::Get,
            r.path@ == collection_path(Resource::Series),
            pairs_view(r.params@) == filter_pairs(filter),
    {
        list_request(Resource::Series, filter)
    }

    /// A single series, by id; the canonical address of the resource.
    pub fn get(id: u32) -> (r: Request)
        ensures
            r.method == Method::Get,
            r.path@ == item_path(Resource::Series, id),
            r.params@.len() == 0,
    {
        item_request(Resource::Series, id)
    }

    /// Lists the characters linked to one series, narrowed by an optional filter.
    pub fn get_characters(id: u32, filter: Option<CharactersFilter>) -> (r: Request)
        ensures
            r.method == Method::Get,
            r.path@ == relation_path(Resource::Series, id, Resource::Characters),
            pairs_view(r.params@) == filter_pairs(filter),
    {
        relation_request(Resource::Series, id, Resource::Characters, filter)
    }

    /// Lists the comics linked to one series, narrowed by an optional filter.
    pub fn get_comics(id: u32, filter: Option<ComicsFilter>) -> (r: Request)
        ensures
            r.method == Method::Get,
            r.path@ == relation_path(Resource::Series, id, Resource::Comics),
            pairs_view(r.params@) == filter_pairs(filter),
    {
        relation_request(Resource::Series, id, Resource::Comics, filter)
    }

    /// Lists the creators linked to one series, narrowed by an optional filter.
    pub fn get_creators(id: u32, filter: Option<CreatorsFilter>) -> (r: Request)
        ensures
            r.method == Method::Get,
            r.path@ == relation_path(Resource::Series, id, Resource::Creators),
            pairs_view(r.params@) == filter_pairs(filter),
    {
        relation_request(Resource::Series, id, Resource::Creators, filter)
    }

    /// Lists the events linked to one series, narrowed by an optional filter.
    pub fn get_events(id: u32, filter: Option<EventsFilter>) -> (r: Request)
        ensures
            r.method == Method::Get,
            r.path@ == relation_path(Resource::Series, id, Resource::Events),
            pairs_view(r.params@) == filter_pairs(filter),
    {
        relation_request(Resource::Series, id, Resource::Events, filter)
    }

    /// Lists the stories linked to one series, narrowed by an optional filter.
    pub fn get_stories(id: u32, filter: Option<StoriesFilter>) -> (r: Request)
        ensures
            r.method == Method::Get,
            r.path@ == relation_path(Resource::Series, id, Resource::Stories),
            pairs_view(r.params@) == filter_pairs(filter),
    {
        relation_request(Resource::Series, id, Resource::Stories, filter)
    }
}

/// A story resource.
#[derive(Debug)]
pub struct Story {
    pub id: Option<u32>,
    pub title: Option<String>,
    pub description: Option<String>,
    pub resource_uri: Option<String>,
    pub kind: Option<String>,
    pub modified: Option<Timestamp>,
    pub thumbnail: Option<Image>,
    pub comics: Option<ComicList>,
    pub series: Option<SeriesList>,
    pub events: Option<EventList>,
    pub characters: Option<CharacterList>,
    pub creators: Option<CreatorList>,
    pub original_issue: Option<ComicSummary>,
}

impl Story {
    /// Lists stories, narrowed by an optional filter.
    pub fn get_all(filter: Option<StoriesFilter>) -> (r: Request)
        ensures
            r.method == Method::Get,
            r.path@ == collection_path(Resource::Stories),
            pairs_view(r.params@) == filter_pairs(filter),
    {
        list_request(Resource::Stories, filter)
    }

    /// A single story, by id; the canonical address of the resource.
    pub fn get(id: u32) -> (r: Request)
        ensures
            r.method == Method::Get,
            r.path@ == item_path(Resource::Stories, id),
            r.params@.len() == 0,
    {
        item_request(Resource::Stories, id)
    }

    /// Lists the characters linked to one story, narrowed by an optional filter.
    pub fn get_characters(id: u32, filter: Option<CharactersFilter>) -> (r: Request)
        ensures
            r.method == Method::Get,
            r.path@ == relation_path(Resource::Stories, id, Resource::Characters),
            pairs_view(r.params@) == filter_pairs(filter),
    {
        relation_request(Resource::Stories, id, Resource::Characters, filter)
    }

    /// Lists the comics linked to one story, narrowed by an optional filter.
    pub fn get_comics(id: u32, filter: Option<ComicsFilter>) -> (r: Request)
        ensures
            r.method == Method::Get,
            r.path@ == relation_path(Resource::Stories, id, Resource::Comics),
            pairs_view(r.params@) == filter_pairs(filter),
    {
        relation_request(Resource::Stories, id, Resource::Comics, filter)
    }

    /// Lists the creators linked to one story, narrowed by an optional filter.
    pub fn get_creators(id: u32, filter: Option<CreatorsFilter>) -> (r: Request)
        ensures
            r.method == Method::Get,
            r.path@ == relation_path(Resource::Stories, id, Resource::Creators),
            pairs_view(r.params@) == filter_pairs(filter),
    {
        relation_request(Resource::Stories, id, Resource::Creators, filter)
    }

    /// Lists the events linked to one story, narrowed by an optional filter.
    pub fn get_events(id: u32, filter: Option<EventsFilter>) -> (r: Request)
        ensures
            r.method == Method::Get,
            r.path@ == relation_path(Resource::Stories, id, Resource::Events),
            pairs_view(r.params@) == filter_pairs(filter),
    {
        relation_request(Resource::Stories, id, Resource::Events, filter)
    }

    /// Lists the series linked to one story, narrowed by an optional filter.
    pub fn get_series(id: u32, filter: Option<SeriesFilter>) -> (r: Request)
        ensures
            r.method == Method::Get,
            r.path@ == relation_path(Resource::Stories, id, Resource::Series),
            pairs_view(r.params@) == filter_pairs(filter),
    {
        relation_request(Resource::Stories, id, Resource::Series, filter)
    }
}

/// Lists characters; its fields are the conditions of the listing.
#[derive(Debug)]
pub struct ListCharactersRequest {
    pub filter: CharactersFilter,
}

impl Endpoint for ListCharactersRequest {
    fn path(&self) -> (r: String)
        ensures
            r@ == collection_path(Resource::Characters),
    {
        list_request::<CharactersFilter>(Resource::Characters, None).path
    }

    fn method(&self) -> (r: Method)
        ensures
            r == Method::Get,
    {
        Method::Get
    }

    fn params(&self) -> (r: Vec<QueryParam>)
        ensures
            pairs_view(r@) == emitted(self.filter.table()),
    {
        self.filter.query_params()
    }
}

/// A single character, by id.
#[derive(Debug)]
pub struct GetCharacterRequest {
    /// A single character id.
    pub id: u32,
}

impl Endpoint for GetCharacterRequest {
    fn path(&self) -> (r: String)
        ensures
            r@ == item_path(Resource::Characters, self.id),
    {
        item_request(Resource::Characters, self.id).path
    }

    fn method(&self) -> (r: Method)
        ensures
            r == Method::Get,
    {
        Method::Get
    }

    fn params(&self) -> (r: Vec<QueryParam>)
        ensures
            r@.len() == 0,
    {
        Vec::new()
    }
}

} // verus!
