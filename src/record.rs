//! The persisted form of a record, and the effect of writing it.
use vstd::prelude::*;
use crate::metadata::ImageMetadataWithKey;

verus! {

/// The table that records are written to.
pub const TABLE_NAME: &'static str = "project-3-testing";

/// A put-style write of one item: string attributes by name, into a table.
#[derive(Debug)]
pub struct PutItemRequest {
    pub table_name: String,
    pub item: Vec<(String, String)>,
}

/// The named string attributes of a record, in the order they are written:
/// the eight metadata fields, then the object reference where there is one.
pub open spec fn attributes_of(m: ImageMetadataWithKey) -> Seq<(Seq<char>, Seq<char>)> {
    let fields = seq![
        ("url"@, m.url@),
        ("label"@, m.label@),
        ("type"@, m.type_@),
        ("season"@, m.season@),
        ("show_name"@, m.show_name@),
        ("designer"@, m.designer@),
        ("description"@, m.description@),
        ("request_id"@, m.request_id@),
    ];
    match m.final_image_key {
        Some(k) => fields.push(("final_image_key"@, k@)),
        None => fields,
    }
}

/// The attribute names of a record whose object reference is set.
pub open spec fn record_attribute_names() -> Set<Seq<char>> {
    set![
        "url"@,
        "label"@,
        "type"@,
        "season"@,
        "show_name"@,
        "designer"@,
        "description"@,
        "request_id"@,
        "final_image_key"@,
    ]
}

/// The plain view of a list of attribute pairs.
pub open spec fn pairs_view(v: Seq<(String, String)>) -> Seq<(Seq<char>, Seq<char>)> {
    v.map_values(|p: (String, String)| (p.0@, p.1@))
}

/// The item that a list of attributes makes: a later pair overrides an
/// earlier one of the same name.
pub open spec fn item_of(attributes: Seq<(Seq<char>, Seq<char>)>) -> Map<Seq<char>, Seq<char>>
    decreases attributes.len(),
{
    if attributes.len() == 0 {
        Map::empty()
    } else {
        item_of(attributes.drop_last()).insert(attributes.last().0, attributes.last().1)
    }
}

/// A table after an unconditional put of `item`: the item replaces whatever
/// was stored under its primary key, named by `key_attribute`. An item that
/// lacks the key attribute is refused and leaves the table as it was.
pub open spec fn upsert(
    table: Map<Seq<char>, Map<Seq<char>, Seq<char>>>,
    key_attribute: Seq<char>,
    item: Map<Seq<char>, Seq<char>>,
) -> Map<Seq<char>, Map<Seq<char>, Seq<char>>> {
    if item.contains_key(key_attribute) {
        table.insert(item[key_attribute], item)
    } else {
        table
    }
}

fn attribute(name: &str, value: &String) -> (r: (String, String))
    ensures
        r.0@ == name@,
        r.1@ == value@,
{
    (String::from_str(name), value.clone())
}

impl ImageMetadataWithKey {
    /// The record's named string attributes, see `attributes_of`.
    pub fn to_attribute_values(&self) -> (r: Vec<(String, String)>)
        ensures
            pairs_view(r@) == attributes_of(*self),
    {
        let mut item_values: Vec<(String, String)> = Vec::new();
        item_values.push(attribute("url", &self.url));
        item_values.push(attribute("label", &self.label));
        item_values.push(attribute("type", &self.type_));
        item_values.push(attribute("season", &self.season));
        item_values.push(attribute("show_name", &self.show_name));
        item_values.push(attribute("designer", &self.designer));
        item_values.push(attribute("description", &self.description));
        item_values.push(attribute("request_id", &self.request_id));
        if let Some(final_image_key) = &self.final_image_key {
            item_values.push(attribute("final_image_key", final_image_key));
        }
        assert(pairs_view(item_values@) =~= attributes_of(*self));
        item_values
    }
}

/// The write that persists `metadata` into `table_name`.
pub fn put_item_request(table_name: String, metadata: &ImageMetadataWithKey) -> (r: PutItemRequest)
    ensures
        r.table_name == table_name,
        pairs_view(r.item@) == attributes_of(*metadata),
{
    PutItemRequest { table_name, item: metadata.to_attribute_values() }
}

/// Every record whose object reference is set (possibly to the empty string)
/// is persisted with all eight metadata attributes and `final_image_key`, the
/// reference under its own name.
pub proof fn lemma_record_complete(m: ImageMetadataWithKey)
    requires
        m.final_image_key is Some,
    ensures
        attributes_of(m).len() == 9,
        item_of(attributes_of(m)).dom() == record_attribute_names(),
        item_of(attributes_of(m))["final_image_key"@] == m.final_image_key->Some_0@,
{
    reveal_with_fuel(item_of, 10);
    assert(item_of(attributes_of(m)).dom() =~= record_attribute_names());
}

/// Writing the same record twice leaves the table as writing it once: the
/// second put overwrites the first under the same primary key, so exactly one
/// item is stored for that key and no other entry of the table changes.
pub proof fn lemma_put_idempotent(
    table: Map<Seq<char>, Map<Seq<char>, Seq<char>>>,
    key_attribute: Seq<char>,
    m: ImageMetadataWithKey,
)
    ensures
        ({
            let item = item_of(attributes_of(m));
            let once = upsert(table, key_attribute, item);
            &&& upsert(once, key_attribute, item) == once
            &&& item.contains_key(key_attribute) ==> {
                &&& once.dom() == table.dom().insert(item[key_attribute])
                &&& once[item[key_attribute]] == item
                &&& forall|k| k != item[key_attribute] && table.contains_key(k) ==> once[k] == table[k]
            }
        }),
{
    let item = item_of(attributes_of(m));
    let once = upsert(table, key_attribute, item);
    if item.contains_key(key_attribute) {
        assert(upsert(once, key_attribute, item) =~= once);
    }
}

} // verus!
