//! The Mall task: collect credit and go shopping.

use vstd::prelude::*;
use core::marker::PhantomData;
use crate::jsontext::{json_str_array, spec_json_bool, spec_json_str_array};
use crate::tasks::{Paused, Running, Server, State, StoppedTask};

verus! {

/// A purchasable credit-store item, by its display name on each server.
#[derive(Debug, Clone, Copy, PartialEq, Eq, Structural)]
pub enum ShopItem {
    LMD,
    RecruitmentPermit,
    ExpeditedPermit,
    CarbonStick,
    FurniturePart,
}

/// The display name of each shop item on each server, as the store shows it.
pub open spec fn spec_shop_item_name(item: ShopItem, server: Server) -> Seq<char> {
    match server {
        Server::CN => match item {
            ShopItem::LMD => "龙门币"@,
            ShopItem::RecruitmentPermit => "招聘"@,
            ShopItem::ExpeditedPermit => "加急"@,
            ShopItem::CarbonStick => "碳"@,
            ShopItem::FurniturePart => "家具"@,
        },
        Server::JP => match item {
            ShopItem::LMD => "龍門幣"@,
            ShopItem::RecruitmentPermit => "採用"@,
            ShopItem::ExpeditedPermit => ""@,
            ShopItem::CarbonStick => "炭素"@,
            ShopItem::FurniturePart => "家具"@,
        },
        Server::US => match item {
            ShopItem::LMD => "LMD"@,
            ShopItem::RecruitmentPermit => "Recruitment"@,
            ShopItem::ExpeditedPermit => "Expedited"@,
            ShopItem::CarbonStick => "Carbon"@,
            ShopItem::FurniturePart => "Furniture"@,
        },
        Server::KR => match item {
            ShopItem::LMD => "LMD"@,
            ShopItem::RecruitmentPermit => "채용 허가증"@,
            ShopItem::ExpeditedPermit => "탐색 허가증"@,
            ShopItem::CarbonStick => "탄소"@,
            ShopItem::FurniturePart => "가구 부품"@,
        },
    }
}

impl ShopItem {
    /// The display name of this item on the given server.
    pub fn localize(&self, server: &Server) -> (r: &'static str)
        ensures
            r@ == spec_shop_item_name(*self, *server),
    {
        match server {
            Server::CN => match self {
                ShopItem::LMD => "龙门币",
                ShopItem::RecruitmentPermit => "招聘",
                ShopItem::ExpeditedPermit => "加急",
                ShopItem::CarbonStick => "碳",
                ShopItem::FurniturePart => "家具",
            },
            Server::JP => match self {
                ShopItem::LMD => "龍門幣",
                ShopItem::RecruitmentPermit => "採用",
                ShopItem::ExpeditedPermit => "",
                ShopItem::CarbonStick => "炭素",
                ShopItem::FurniturePart => "家具",
            },
            Server::US => match self {
                ShopItem::LMD => "LMD",
                ShopItem::RecruitmentPermit => "Recruitment",
                ShopItem::ExpeditedPermit => "Expedited",
                ShopItem::CarbonStick => "Carbon",
                ShopItem::FurniturePart => "Furniture",
            },
            Server::KR => match self {
                ShopItem::LMD => "LMD",
                ShopItem::RecruitmentPermit => "채용 허가증",
                ShopItem::ExpeditedPermit => "탐색 허가증",
                ShopItem::CarbonStick => "탄소",
                ShopItem::FurniturePart => "가구 부품",
            },
        }
    }
}

/// A Mall task. Buying goes by the priority list first, then left to right
/// avoiding the blacklist, then — if credit would overflow and forcing is on
/// — ignoring the blacklist.
pub struct Mall<T: State> {
    pub _phantom: PhantomData<T>,
    pub id: Option<usize>,
    pub shopping: bool,
    pub buy_first: Vec<String>,
    pub blacklist: Vec<String>,
    pub force_shopping_if_credit_full: bool,
}

/// The JSON encoding of a Mall task.
pub open spec fn spec_mall_json<T: State>(m: Mall<T>) -> Seq<char> {
    let s = "{"@;
    let s = s + "\"shopping\":"@ + spec_json_bool(m.shopping);
    let s = s + ",\"buy_first\":"@ + spec_json_str_array(
        m.buy_first@.map_values(|p: String| p@),
    );
    let s = s + ",\"blacklist\":"@ + spec_json_str_array(
        m.blacklist@.map_values(|p: String| p@),
    );
    let s = s + ",\"force_shopping_if_credit_full\":"@ + spec_json_bool(
        m.force_shopping_if_credit_full,
    );
    s + "}"@
}

impl<T: State> Mall<T> {
    /// A fresh Mall task: no shopping, empty lists, no forced buying.
    pub fn new() -> (r: Mall<T>)
        ensures
            r.id is None,
            !r.shopping,
            r.buy_first@ == Seq::<String>::empty(),
            r.blacklist@ == Seq::<String>::empty(),
            !r.force_shopping_if_credit_full,
    {
        Mall {
            _phantom: PhantomData,
            id: None,
            shopping: false,
            buy_first: Vec::new(),
            blacklist: Vec::new(),
            force_shopping_if_credit_full: false,
        }
    }
}

impl Mall<Paused> {
    /// A fresh Mall task in *Configurable* state.
    pub fn new_paused() -> (r: Mall<Paused>)
        ensures
            r.id is None,
            !r.shopping,
            r.buy_first@ == Seq::<String>::empty(),
            r.blacklist@ == Seq::<String>::empty(),
            !r.force_shopping_if_credit_full,
    {
        Self::new()
    }

    /// Whether to buy anything at all.
    pub fn shopping(self, shopping: bool) -> (r: Mall<Paused>)
        ensures
            r == (Mall { shopping, ..self }),
    {
        Mall { shopping, ..self }
    }

    /// The items to buy first, localized to the given server's store.
    pub fn buy_first(self, buy_first: Vec<ShopItem>, server: &Server) -> (r: Mall<Paused>)
        ensures
            r == (Mall { buy_first: r.buy_first, ..self }),
            r.buy_first@.map_values(|p: String| p@) == buy_first@.map_values(
                |it: ShopItem| spec_shop_item_name(it, *server),
            ),
    {
        let localized = localize_all(&buy_first, server);
        Mall { buy_first: localized, ..self }
    }

    /// The items never to buy, localized to the given server's store.
    pub fn blacklist(self, blacklist: Vec<ShopItem>, server: &Server) -> (r: Mall<Paused>)
        ensures
            r == (Mall { blacklist: r.blacklist, ..self }),
            r.blacklist@.map_values(|p: String| p@) == blacklist@.map_values(
                |it: ShopItem| spec_shop_item_name(it, *server),
            ),
    {
        let localized = localize_all(&blacklist, server);
        Mall { blacklist: localized, ..self }
    }

    /// Whether to keep buying past the blacklist while credit would
    /// overflow.
    pub fn force_buy_when_full(self, force_buy_when_full: bool) -> (r: Mall<Paused>)
        ensures
            r == (Mall { force_shopping_if_credit_full: force_buy_when_full, ..self }),
    {
        Mall { force_shopping_if_credit_full: force_buy_when_full, ..self }
    }

    /// Freezes the configuration: the one transition out of *Configurable*.
    pub fn start(self) -> (r: Mall<Running>)
        ensures
            r.id == self.id,
            r.shopping == self.shopping,
            r.buy_first == self.buy_first,
            r.blacklist == self.blacklist,
            r.force_shopping_if_credit_full == self.force_shopping_if_credit_full,
            spec_mall_json(r) == spec_mall_json(self),
    {
        Mall {
            _phantom: PhantomData,
            id: self.id,
            shopping: self.shopping,
            buy_first: self.buy_first,
            blacklist: self.blacklist,
            force_shopping_if_credit_full: self.force_shopping_if_credit_full,
        }
    }
}

/// The display names of the given items on the given server, in order.
fn localize_all(items: &Vec<ShopItem>, server: &Server) -> (r: Vec<String>)
    ensures
        r@.map_values(|p: String| p@) == items@.map_values(
            |it: ShopItem| spec_shop_item_name(it, *server),
        ),
{
    let mut r: Vec<String> = Vec::new();
    let mut i: usize = 0;
    while i < items.len()
        invariant
            i <= items@.len(),
            r@.map_values(|p: String| p@) == items@.take(i as int).map_values(
                |it: ShopItem| spec_shop_item_name(it, *server),
            ),
        decreases items@.len() - i,
    {
        r.push(items[i].localize(server).to_owned());
        proof {
            assert(items@.take(i + 1).map_values(|it: ShopItem| spec_shop_item_name(it, *server))
                == items@.take(i as int).map_values(
                |it: ShopItem| spec_shop_item_name(it, *server),
            ).push(spec_shop_item_name(items@[i as int], *server)));
            assert(r@.map_values(|p: String| p@) == r@.drop_last().map_values(
                |p: String| p@,
            ).push(r@.last()@));
        }
        i = i + 1;
    }
    proof {
        assert(items@.take(items@.len() as int) == items@);
    }
    r
}

impl StoppedTask for Mall<Paused> {
    open spec fn spec_json(&self) -> Seq<char> {
        spec_mall_json(*self)
    }

    open spec fn spec_name(&self) -> Seq<char> {
        "Mall"@
    }

    open spec fn spec_id(&self) -> Option<usize> {
        self.id
    }

    fn to_json(&self) -> (r: String) {
        mall_to_json(self)
    }

    fn name(&self) -> (r: &'static str) {
        "Mall"
    }

    fn set_id(&mut self, id: usize) {
        self.id = Some(id);
    }

    fn id(&self) -> (r: Option<usize>) {
        self.id
    }
}

/// Encodes a Mall task, in either state, as its JSON payload.
pub fn mall_to_json<T: State>(m: &Mall<T>) -> (r: String)
    ensures
        r@ == spec_mall_json(*m),
{
    let mut s: String = "{".to_owned();
    s.append("\"shopping\":");
    s.append(if m.shopping { "true" } else { "false" });
    s.append(",\"buy_first\":");
    let p = json_str_array(&m.buy_first);
    s.append(p.as_str());
    s.append(",\"blacklist\":");
    let p = json_str_array(&m.blacklist);
    s.append(p.as_str());
    s.append(",\"force_shopping_if_credit_full\":");
    s.append(if m.force_shopping_if_credit_full { "true" } else { "false" });
    s.append("}");
    s
}

} // verus!
