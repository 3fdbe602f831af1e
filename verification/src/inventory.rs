//! A member's inventory: the JSON document stored with the member, and what a purchase adds
//! to it. The document is kept as the JSON library has it, so that what the bot does not
//! understand in it is written back as it was read.

use crate::economy::{next_quantity, ShopItem};
use crate::text::push_text;
use vstd::prelude::*;

verus! {

/// `serde_json::Value`: a JSON document, of which the verifier sees nothing but what the
/// functions below state.
#[verifier::external_type_specification]
#[verifier::external_body]
pub struct ExJsonValue(serde_json::Value);

/// The whole-number entries of a JSON document: for every key of an object whose value is an
/// integer that fits in 64 bits, that integer. A document that is no object has none.
pub uninterp spec fn counts_in(document: serde_json::Value) -> Map<Seq<char>, i64>;

/// Whether a JSON document is an object.
pub uninterp spec fn holds_object(document: serde_json::Value) -> bool;

/// The text that a JSON document is written as.
pub uninterp spec fn text_written(document: serde_json::Value) -> Seq<char>;

/// The entries of a JSON document that is an object, in the order the document keeps them:
/// each key with its value written as JSON text. A document that is no object has none.
pub uninterp spec fn entries_in(document: serde_json::Value) -> Seq<(Seq<char>, Seq<char>)>;

/// The texts of pairs of strings.
pub open spec fn pairs_of(pairs: Seq<(String, String)>) -> Seq<(Seq<char>, Seq<char>)> {
    Seq::new(pairs.len(), |i: int| (pairs[i].0@, pairs[i].1@))
}

/// No entries.
pub open spec fn no_counts() -> Map<Seq<char>, i64> {
    Map::empty()
}

/// The number under a key, where there is one.
pub open spec fn count_under(counts: Map<Seq<char>, i64>, item: Seq<char>) -> Option<i64> {
    if counts.contains_key(item) {
        Some(counts[item])
    } else {
        None
    }
}

/// The JSON document that a text writes; none where the text is no JSON.
pub uninterp spec fn document_of(stored: Seq<char>) -> Option<serde_json::Value>;

/// `serde_json::from_str` for a `Value`, with its error dropped: the document that the text
/// writes, or none where the text is no JSON. The text alone decides.
#[verifier::external_body]
fn parse_document(stored: &str) -> (parsed: Option<serde_json::Value>)
    ensures
        parsed == document_of(stored@),
{
    serde_json::from_str::<serde_json::Value>(stored).ok()
}

/// `Value::Object` of `Map::new`: an object without entries.
#[verifier::external_body]
fn empty_document() -> (document: serde_json::Value)
    ensures
        holds_object(document),
        counts_in(document) == no_counts(),
{
    serde_json::Value::Object(serde_json::Map::new())
}

/// `Value::get` with a key, then `Value::as_i64`: the integer under the key, where the
/// document is an object that has the key with an integer that fits in 64 bits.
#[verifier::external_body]
fn lookup(document: &serde_json::Value, item: &str) -> (held: Option<i64>)
    ensures
        held == count_under(counts_in(*document), item@),
{
    document.get(item).and_then(|value| value.as_i64())
}

/// `Value::as_object_mut`, then `Map::insert` of the number under the key. An object has the
/// number under the key afterwards and every other entry as before; a document that is no
/// object is left as it is.
#[verifier::external_body]
fn put(document: &mut serde_json::Value, item: &str, quantity: i64) -> (done: bool)
    ensures
        done == holds_object(*old(document)),
        done ==> holds_object(*final(document)),
        done ==> counts_in(*final(document)) == counts_in(*old(document)).insert(item@, quantity),
        !done ==> *final(document) == *old(document),
{
    match document.as_object_mut() {
        Some(entries) => {
            entries.insert(item.to_string(), serde_json::Value::from(quantity));
            true
        },
        None => false,
    }
}

/// `Value::to_string`: the document as JSON text.
#[verifier::external_body]
fn written(document: &serde_json::Value) -> (text: String)
    ensures
        text@ == text_written(*document),
{
    document.to_string()
}

/// `Value::as_object`, then the entries of the map in its order, each key with
/// `Value::to_string` of its value. A document that is no object gives none.
#[verifier::external_body]
fn entries_of(document: &serde_json::Value) -> (entries: Vec<(String, String)>)
    ensures
        pairs_of(entries@) == entries_in(*document),
{
    match document.as_object() {
        Some(map) => map.iter().map(|(key, value)| (key.clone(), value.to_string())).collect(),
        None => Vec::new(),
    }
}

/// A line of an inventory's listing.
#[derive(Debug, Clone, PartialEq, Eq)]
pub struct InventoryLine {
    /// The item's name, or its identifier where the shop does not sell it.
    pub label: String,
    /// How many are held, in words.
    pub quantity: String,
}

/// The name an inventory shows for an entry: that of the shop's item, or the entry's key
/// where the shop sells nothing under it.
pub open spec fn label_of(key: Seq<char>) -> Seq<char> {
    match crate::economy::item_of(key) {
        Some(ShopItem::Vip) => "⭐ VIP Pass"@,
        Some(ShopItem::Color) => "🎨 Custom Color"@,
        Some(ShopItem::Boost) => "⚡ XP Boost x2"@,
        Some(ShopItem::Coins) => "💰 Coin Pack"@,
        None => key,
    }
}

/// The lines that show the entries, in their order.
pub open spec fn lines_of(entries: Seq<(Seq<char>, Seq<char>)>) -> Seq<(Seq<char>, Seq<char>)> {
    Seq::new(entries.len(), |i: int| (label_of(entries[i].0), "Quantity: "@ + entries[i].1))
}

/// What the lines state.
pub open spec fn lines_view(lines: Seq<InventoryLine>) -> Seq<(Seq<char>, Seq<char>)> {
    Seq::new(lines.len(), |i: int| (lines[i].label@, lines[i].quantity@))
}

/// The name an inventory shows for an entry.
pub fn item_label(key: &str) -> (label: String)
    ensures
        label@ == label_of(key@),
{
    let mut label = String::new();
    match ShopItem::from_id(key) {
        Some(ShopItem::Vip) => push_text(&mut label, "⭐ VIP Pass"),
        Some(ShopItem::Color) => push_text(&mut label, "🎨 Custom Color"),
        Some(ShopItem::Boost) => push_text(&mut label, "⚡ XP Boost x2"),
        Some(ShopItem::Coins) => push_text(&mut label, "💰 Coin Pack"),
        None => push_text(&mut label, key),
    }
    label
}

/// The lines that show the entries, in their order.
pub fn lines_for(entries: &Vec<(String, String)>) -> (lines: Vec<InventoryLine>)
    ensures
        lines_view(lines@) == lines_of(pairs_of(entries@)),
{
    let mut lines: Vec<InventoryLine> = Vec::new();
    let mut i: usize = 0;
    while i < entries.len()
        invariant
            i <= entries.len(),
            lines.len() == i,
            forall|j: int|
                0 <= j < i ==> (#[trigger] lines@[j]).label@ == label_of(entries@[j].0@)
                    && lines@[j].quantity@ == "Quantity: "@ + entries@[j].1@,
        decreases entries.len() - i,
    {
        let label = item_label(entries[i].0.as_str());
        let mut quantity = String::new();
        push_text(&mut quantity, "Quantity: ");
        push_text(&mut quantity, entries[i].1.as_str());
        lines.push(InventoryLine { label, quantity });
        i += 1;
    }
    assert(lines_view(lines@) =~= lines_of(pairs_of(entries@)));
    lines
}

/// A member's inventory.
#[derive(Debug)]
pub struct Inventory {
    document: serde_json::Value,
}

impl Inventory {
    /// How many the inventory holds of each item it counts.
    pub closed spec fn counts(self) -> Map<Seq<char>, i64> {
        counts_in(self.document)
    }

    /// Whether the stored document is an object, as an inventory's document should be.
    pub closed spec fn is_object(self) -> bool {
        holds_object(self.document)
    }

    /// The text the inventory is stored as.
    pub closed spec fn text(self) -> Seq<char> {
        text_written(self.document)
    }

    /// How many the inventory holds of an item, where it counts the item.
    pub open spec fn count_of(self, item: Seq<char>) -> Option<i64> {
        count_under(self.counts(), item)
    }

    /// An inventory that holds nothing.
    pub fn empty() -> (inventory: Inventory)
        ensures
            inventory.is_object(),
            inventory.counts() == no_counts(),
    {
        Inventory { document: empty_document() }
    }

    /// The inventory that was parsed, or an empty one where nothing could be parsed.
    pub fn or_empty(parsed: Option<Inventory>) -> (inventory: Inventory)
        ensures
            parsed matches Some(stored) ==> inventory == stored,
            parsed is None ==> inventory.is_object() && inventory.counts() == no_counts(),
    {
        match parsed {
            Some(stored) => stored,
            None => Inventory::empty(),
        }
    }

    /// The inventory stored as `stored`; none where `stored` is no JSON.
    pub fn parse(stored: &str) -> (parsed: Option<Inventory>)
        ensures
            parsed == Inventory::stored_as(stored@),
    {
        match parse_document(stored) {
            Some(document) => Some(Inventory { document }),
            None => None,
        }
    }

    /// The inventory that a text stores: the one whose document the text writes; none where
    /// the text is no JSON.
    pub closed spec fn stored_as(stored: Seq<char>) -> Option<Inventory> {
        match document_of(stored) {
            Some(document) => Some(Inventory { document }),
            None => None,
        }
    }

    /// The inventory stored as `stored`. Where nothing is stored, or what is stored is no
    /// JSON, the inventory is empty.
    pub fn load(stored: Option<&str>) -> (inventory: Inventory)
        ensures
            match stored {
                Some(text) => match Inventory::stored_as(text@) {
                    Some(kept) => inventory == kept,
                    None => inventory.is_object() && inventory.counts() == no_counts(),
                },
                None => inventory.is_object() && inventory.counts() == no_counts(),
            },
    {
        match stored {
            Some(text) => Inventory::or_empty(Inventory::parse(text)),
            None => Inventory::empty(),
        }
    }

    /// How many the inventory holds of an item, where it counts the item.
    pub fn quantity(&self, item: &str) -> (held: Option<i64>)
        ensures
            held == self.count_of(item@),
    {
        lookup(&self.document, item)
    }

    /// Adds one of an item and returns how many the inventory then holds. An item not counted
    /// so far is held once. Nothing is added, and none returned, where the stored document is
    /// no object or the number would not fit in 64 bits.
    pub fn add_one(&mut self, item: &str) -> (added: Option<i64>)
        ensures
            added == if old(self).is_object() {
                match old(self).count_of(item@) {
                    None => Some(1i64),
                    Some(n) => if n < i64::MAX {
                        Some((n + 1) as i64)
                    } else {
                        None
                    },
                }
            } else {
                None
            },
            added matches Some(n) ==> final(self).is_object() && final(self).counts() == old(
                self,
            ).counts().insert(item@, n),
            added is None ==> *final(self) == *old(self),
    {
        let held = lookup(&self.document, item);
        match next_quantity(held) {
            Some(n) => {
                if put(&mut self.document, item, n) {
                    Some(n)
                } else {
                    None
                }
            },
            None => None,
        }
    }

    /// The entries of the stored document, each key with its value as JSON text.
    pub closed spec fn entries(self) -> Seq<(Seq<char>, Seq<char>)> {
        entries_in(self.document)
    }

    /// The inventory's listing: a line for every entry of the stored document, in its order.
    /// An inventory whose listing is empty holds nothing to show.
    pub fn listing(&self) -> (lines: Vec<InventoryLine>)
        ensures
            lines_view(lines@) == lines_of(self.entries()),
    {
        let entries = entries_of(&self.document);
        lines_for(&entries)
    }

    /// The text to store the inventory as.
    pub fn write(&self) -> (text: String)
        ensures
            text@ == self.text(),
    {
        written(&self.document)
    }
}

} // verus!
