use vstd::prelude::*;

use crate::models::Category;
use crate::text::{chars_eq_str, chars_of, split_label, split_label_chars, trim_chars, trim_spec};

verus! {

/// The fixed taxonomy of canonical categories that free-text labels
/// are mapped onto before storage.  `UNDEFINED` stands for a label
/// segment the taxonomy does not know; it is filtered out of every
/// row set built here.
#[allow(non_camel_case_types)]
#[derive(Clone, Copy, Debug, PartialEq, Eq, Hash, Structural)]
pub enum CategoryType {
    OTHERS,
    UNDEFINED,
    KOREAN,
    SEA_FOOD,
    MEAT,
    NODDLE,
    RAW_FISH,
    PORRIDGE,
    KOREAN_STEW,
    JAPANESE,
    TUNA_SASHIMI,
    SUSHI,
    PORK_CUTLET_UDON,
    RAMEN,
    SHABU_SHABU,
    ALCOHOL,
    INDOOR_STALLS,
    HOF_PUB,
    WINE_BAR,
    IZAKAYA,
    COCKTAIL_BAR,
    DRIVERS,
    ASIAN,
    SOUTH_EAST_ASIAN,
    INDIAN,
    CHINESE,
    LAMB_SKEWERS,
    LUNCH_BOX,
    FAST_FOOD,
    SANDWICH,
    CAFE_DESSERT,
    BAKERY,
    RICE_CAKE,
    ICE_CREAM,
    DONUT,
    TOAST,
    CHICKEN,
    SCHOOL_FOOD,
    WESTERN_FOOD,
    ITALY,
    PIZZA,
    BURGER,
    STEAK_RIB,
    MEXICAN,
    SALAD,
}

impl CategoryType {
    /// The canonical label of each taxonomy entry, as stored.
    pub open spec fn name_spec(self) -> Seq<char> {
        match self {
            CategoryType::OTHERS => "OTHERS"@,
            CategoryType::UNDEFINED => "UNDEFINED"@,
            CategoryType::KOREAN => "KOREAN"@,
            CategoryType::SEA_FOOD => "SEA_FOOD"@,
            CategoryType::MEAT => "MEAT"@,
            CategoryType::NODDLE => "NODDLE"@,
            CategoryType::RAW_FISH => "RAW_FISH"@,
            CategoryType::PORRIDGE => "PORRIDGE"@,
            CategoryType::KOREAN_STEW => "KOREAN_STEW"@,
            CategoryType::JAPANESE => "JAPANESE"@,
            CategoryType::TUNA_SASHIMI => "TUNA_SASHIMI"@,
            CategoryType::SUSHI => "SUSHI"@,
            CategoryType::PORK_CUTLET_UDON => "PORK_CUTLET_UDON"@,
            CategoryType::RAMEN => "RAMEN"@,
            CategoryType::SHABU_SHABU => "SHABU_SHABU"@,
            CategoryType::ALCOHOL => "ALCOHOL"@,
            CategoryType::INDOOR_STALLS => "INDOOR_STALLS"@,
            CategoryType::HOF_PUB => "HOF_PUB"@,
            CategoryType::WINE_BAR => "WINE_BAR"@,
            CategoryType::IZAKAYA => "IZAKAYA"@,
            CategoryType::COCKTAIL_BAR => "COCKTAIL_BAR"@,
            CategoryType::DRIVERS => "DRIVERS"@,
            CategoryType::ASIAN => "ASIAN"@,
            CategoryType::SOUTH_EAST_ASIAN => "SOUTH_EAST_ASIAN"@,
            CategoryType::INDIAN => "INDIAN"@,
            CategoryType::CHINESE => "CHINESE"@,
            CategoryType::LAMB_SKEWERS => "LAMB_SKEWERS"@,
            CategoryType::LUNCH_BOX => "LUNCH_BOX"@,
            CategoryType::FAST_FOOD => "FAST_FOOD"@,
            CategoryType::SANDWICH => "SANDWICH"@,
            CategoryType::CAFE_DESSERT => "CAFE_DESSERT"@,
            CategoryType::BAKERY => "BAKERY"@,
            CategoryType::RICE_CAKE => "RICE_CAKE"@,
            CategoryType::ICE_CREAM => "ICE_CREAM"@,
            CategoryType::DONUT => "DONUT"@,
            CategoryType::TOAST => "TOAST"@,
            CategoryType::CHICKEN => "CHICKEN"@,
            CategoryType::SCHOOL_FOOD => "SCHOOL_FOOD"@,
            CategoryType::WESTERN_FOOD => "WESTERN_FOOD"@,
            CategoryType::ITALY => "ITALY"@,
            CategoryType::PIZZA => "PIZZA"@,
            CategoryType::BURGER => "BURGER"@,
            CategoryType::STEAK_RIB => "STEAK_RIB"@,
            CategoryType::MEXICAN => "MEXICAN"@,
            CategoryType::SALAD => "SALAD"@,
        }
    }

    /// The canonical label of this entry.
    pub fn name(&self) -> (r: &'static str)
        ensures
            r@ == self.name_spec(),
    {
        match self {
            CategoryType::OTHERS => "OTHERS",
            CategoryType::UNDEFINED => "UNDEFINED",
            CategoryType::KOREAN => "KOREAN",
            CategoryType::SEA_FOOD => "SEA_FOOD",
            CategoryType::MEAT => "MEAT",
            CategoryType::NODDLE => "NODDLE",
            CategoryType::RAW_FISH => "RAW_FISH",
            CategoryType::PORRIDGE => "PORRIDGE",
            CategoryType::KOREAN_STEW => "KOREAN_STEW",
            CategoryType::JAPANESE => "JAPANESE",
            CategoryType::TUNA_SASHIMI => "TUNA_SASHIMI",
            CategoryType::SUSHI => "SUSHI",
            CategoryType::PORK_CUTLET_UDON => "PORK_CUTLET_UDON",
            CategoryType::RAMEN => "RAMEN",
            CategoryType::SHABU_SHABU => "SHABU_SHABU",
            CategoryType::ALCOHOL => "ALCOHOL",
            CategoryType::INDOOR_STALLS => "INDOOR_STALLS",
            CategoryType::HOF_PUB => "HOF_PUB",
            CategoryType::WINE_BAR => "WINE_BAR",
            CategoryType::IZAKAYA => "IZAKAYA",
            CategoryType::COCKTAIL_BAR => "COCKTAIL_BAR",
            CategoryType::DRIVERS => "DRIVERS",
            CategoryType::ASIAN => "ASIAN",
            CategoryType::SOUTH_EAST_ASIAN => "SOUTH_EAST_ASIAN",
            CategoryType::INDIAN => "INDIAN",
            CategoryType::CHINESE => "CHINESE",
            CategoryType::LAMB_SKEWERS => "LAMB_SKEWERS",
            CategoryType::LUNCH_BOX => "LUNCH_BOX",
            CategoryType::FAST_FOOD => "FAST_FOOD",
            CategoryType::SANDWICH => "SANDWICH",
            CategoryType::CAFE_DESSERT => "CAFE_DESSERT",
            CategoryType::BAKERY => "BAKERY",
            CategoryType::RICE_CAKE => "RICE_CAKE",
            CategoryType::ICE_CREAM => "ICE_CREAM",
            CategoryType::DONUT => "DONUT",
            CategoryType::TOAST => "TOAST",
            CategoryType::CHICKEN => "CHICKEN",
            CategoryType::SCHOOL_FOOD => "SCHOOL_FOOD",
            CategoryType::WESTERN_FOOD => "WESTERN_FOOD",
            CategoryType::ITALY => "ITALY",
            CategoryType::PIZZA => "PIZZA",
            CategoryType::BURGER => "BURGER",
            CategoryType::STEAK_RIB => "STEAK_RIB",
            CategoryType::MEXICAN => "MEXICAN",
            CategoryType::SALAD => "SALAD",
        }
    }

    /// Where one free-text label segment lands in the taxonomy; a
    /// segment the table does not list lands on `UNDEFINED`.
    pub open spec fn spec_from(s: Seq<char>) -> CategoryType {
        if s == "한식"@ {
            CategoryType::KOREAN
        } else if s == "해물,생선"@ {
            CategoryType::SEA_FOOD
        } else if s == "육류,고기"@ {
            CategoryType::MEAT
        } else if s == "국수"@ {
            CategoryType::NODDLE
        } else if s == "회"@ {
            CategoryType::RAW_FISH
        } else if s == "죽"@ {
            CategoryType::PORRIDGE
        } else if s == "찌개, 전골"@ {
            CategoryType::KOREAN_STEW
        } else if s == "일식"@ {
            CategoryType::JAPANESE
        } else if s == "초밥,롤"@ {
            CategoryType::SUSHI
        } else if s == "참치회"@ {
            CategoryType::TUNA_SASHIMI
        } else if s == "돈까스,우동"@ {
            CategoryType::PORK_CUTLET_UDON
        } else if s == "일본식라면"@ {
            CategoryType::RAMEN
        } else if s == "샤브샤브"@ {
            CategoryType::SHABU_SHABU
        } else if s == "술집"@ {
            CategoryType::ALCOHOL
        } else if s == "실내포장마차"@ {
            CategoryType::INDOOR_STALLS
        } else if s == "호프,요리주점"@ {
            CategoryType::HOF_PUB
        } else if s == "와인바"@ {
            CategoryType::WINE_BAR
        } else if s == "일본식주점"@ {
            CategoryType::IZAKAYA
        } else if s == "칵테일바"@ {
            CategoryType::COCKTAIL_BAR
        } else if s == "기사식당"@ {
            CategoryType::DRIVERS
        } else if s == "아시아음식"@ {
            CategoryType::ASIAN
        } else if s == "동남아음식"@ {
            CategoryType::SOUTH_EAST_ASIAN
        } else if s == "인도음식"@ {
            CategoryType::INDIAN
        } else if s == "중식"@ {
            CategoryType::CHINESE
        } else if s == "양꼬치"@ {
            CategoryType::LAMB_SKEWERS
        } else if s == "도시락"@ {
            CategoryType::LUNCH_BOX
        } else if s == "패스트푸드"@ {
            CategoryType::FAST_FOOD
        } else if s == "샌드위치"@ {
            CategoryType::SANDWICH
        } else if s == "카페"@ {
            CategoryType::CAFE_DESSERT
        } else if s == "간식"@ {
            CategoryType::CAFE_DESSERT
        } else if s == "제과,베이커리"@ {
            CategoryType::BAKERY
        } else if s == "떡,한과"@ {
            CategoryType::RICE_CAKE
        } else if s == "아이스크림"@ {
            CategoryType::ICE_CREAM
        } else if s == "도넛"@ {
            CategoryType::DONUT
        } else if s == "토스트"@ {
            CategoryType::TOAST
        } else if s == "치킨"@ {
            CategoryType::CHICKEN
        } else if s == "분식"@ {
            CategoryType::SCHOOL_FOOD
        } else if s == "양식"@ {
            CategoryType::WESTERN_FOOD
        } else if s == "이탈리안"@ {
            CategoryType::ITALY
        } else if s == "피자"@ {
            CategoryType::PIZZA
        } else if s == "햄버거"@ {
            CategoryType::BURGER
        } else if s == "스테이크,립"@ {
            CategoryType::STEAK_RIB
        } else if s == "멕시칸,브라질"@ {
            CategoryType::MEXICAN
        } else if s == "샐러드"@ {
            CategoryType::SALAD
        } else if s == "퓨전요리"@ {
            CategoryType::OTHERS
        } else {
            CategoryType::UNDEFINED
        }
    }

    /// Looks one label segment up in the taxonomy.
    pub fn from_chars(cs: &Vec<char>) -> (r: CategoryType)
        ensures
            r == Self::spec_from(cs@),
    {
        if chars_eq_str(cs, "한식") {
            CategoryType::KOREAN
        } else if chars_eq_str(cs, "해물,생선") {
            CategoryType::SEA_FOOD
        } else if chars_eq_str(cs, "육류,고기") {
            CategoryType::MEAT
        } else if chars_eq_str(cs, "국수") {
            CategoryType::NODDLE
        } else if chars_eq_str(cs, "회") {
            CategoryType::RAW_FISH
        } else if chars_eq_str(cs, "죽") {
            CategoryType::PORRIDGE
        } else if chars_eq_str(cs, "찌개, 전골") {
            CategoryType::KOREAN_STEW
        } else if chars_eq_str(cs, "일식") {
            CategoryType::JAPANESE
        } else if chars_eq_str(cs, "초밥,롤") {
            CategoryType::SUSHI
        } else if chars_eq_str(cs, "참치회") {
            CategoryType::TUNA_SASHIMI
        } else if chars_eq_str(cs, "돈까스,우동") {
            CategoryType::PORK_CUTLET_UDON
        } else if chars_eq_str(cs, "일본식라면") {
            CategoryType::RAMEN
        } else if chars_eq_str(cs, "샤브샤브") {
            CategoryType::SHABU_SHABU
        } else if chars_eq_str(cs, "술집") {
            CategoryType::ALCOHOL
        } else if chars_eq_str(cs, "실내포장마차") {
            CategoryType::INDOOR_STALLS
        } else if chars_eq_str(cs, "호프,요리주점") {
            CategoryType::HOF_PUB
        } else if chars_eq_str(cs, "와인바") {
            CategoryType::WINE_BAR
        } else if chars_eq_str(cs, "일본식주점") {
            CategoryType::IZAKAYA
        } else if chars_eq_str(cs, "칵테일바") {
            CategoryType::COCKTAIL_BAR
        } else if chars_eq_str(cs, "기사식당") {
            CategoryType::DRIVERS
        } else if chars_eq_str(cs, "아시아음식") {
            CategoryType::ASIAN
        } else if chars_eq_str(cs, "동남아음식") {
            CategoryType::SOUTH_EAST_ASIAN
        } else if chars_eq_str(cs, "인도음식") {
            CategoryType::INDIAN
        } else if chars_eq_str(cs, "중식") {
            CategoryType::CHINESE
        } else if chars_eq_str(cs, "양꼬치") {
            CategoryType::LAMB_SKEWERS
        } else if chars_eq_str(cs, "도시락") {
            CategoryType::LUNCH_BOX
        } else if chars_eq_str(cs, "패스트푸드") {
            CategoryType::FAST_FOOD
        } else if chars_eq_str(cs, "샌드위치") {
            CategoryType::SANDWICH
        } else if chars_eq_str(cs, "카페") {
            CategoryType::CAFE_DESSERT
        } else if chars_eq_str(cs, "간식") {
            CategoryType::CAFE_DESSERT
        } else if chars_eq_str(cs, "제과,베이커리") {
            CategoryType::BAKERY
        } else if chars_eq_str(cs, "떡,한과") {
            CategoryType::RICE_CAKE
        } else if chars_eq_str(cs, "아이스크림") {
            CategoryType::ICE_CREAM
        } else if chars_eq_str(cs, "도넛") {
            CategoryType::DONUT
        } else if chars_eq_str(cs, "토스트") {
            CategoryType::TOAST
        } else if chars_eq_str(cs, "치킨") {
            CategoryType::CHICKEN
        } else if chars_eq_str(cs, "분식") {
            CategoryType::SCHOOL_FOOD
        } else if chars_eq_str(cs, "양식") {
            CategoryType::WESTERN_FOOD
        } else if chars_eq_str(cs, "이탈리안") {
            CategoryType::ITALY
        } else if chars_eq_str(cs, "피자") {
            CategoryType::PIZZA
        } else if chars_eq_str(cs, "햄버거") {
            CategoryType::BURGER
        } else if chars_eq_str(cs, "스테이크,립") {
            CategoryType::STEAK_RIB
        } else if chars_eq_str(cs, "멕시칸,브라질") {
            CategoryType::MEXICAN
        } else if chars_eq_str(cs, "샐러드") {
            CategoryType::SALAD
        } else if chars_eq_str(cs, "퓨전요리") {
            CategoryType::OTHERS
        } else {
            CategoryType::UNDEFINED
        }
    }
}

impl From<&str> for CategoryType {
    /// Taxonomy lookup of a segment, exactly as written, untrimmed.
    fn from(value: &str) -> (r: CategoryType) {
        let cs = chars_of(value);
        CategoryType::from_chars(&cs)
    }
}

impl vstd::std_specs::convert::FromSpecImpl<&str> for CategoryType {
    open spec fn obeys_from_spec() -> bool {
        true
    }

    open spec fn from_spec(v: &str) -> CategoryType {
        CategoryType::spec_from(v@)
    }
}

/// Builds the storage row for one label segment: the segment is
/// trimmed, looked up in the taxonomy, and written under the entity
/// `rid` it belongs to.
pub fn get_category_from(c: &str, rid: &str) -> (r: Category)
    ensures
        r.restaurant_id@ == rid@,
        r.categories@ == CategoryType::spec_from(trim_spec(c@)).name_spec(),
{
    let cs = chars_of(c);
    let t = trim_chars(&cs);
    let ct = CategoryType::from_chars(&t);
    Category { restaurant_id: rid.to_owned(), categories: ct.name().to_owned() }
}

/// The taxonomy entry of each segment of a label, in segment order.
pub open spec fn segment_types(label: Seq<char>) -> Seq<CategoryType> {
    split_label(label).map_values(|seg: Seq<char>| CategoryType::spec_from(trim_spec(seg)))
}

/// Folds segment entries left to right into the entries accepted so
/// far: an entry already accepted, and the `UNDEFINED` sentinel, are
/// passed over; anything else is appended.  First seen wins, order of
/// first appearance is kept.
pub open spec fn collect_types(ts: Seq<CategoryType>, acc: Seq<CategoryType>) -> Seq<CategoryType>
    decreases ts.len(),
{
    if ts.len() == 0 {
        acc
    } else {
        let acc2 = if ts[0] == CategoryType::UNDEFINED || acc.contains(ts[0]) {
            acc
        } else {
            acc.push(ts[0])
        };
        collect_types(ts.skip(1), acc2)
    }
}

/// The canonical taxonomy entries of a whole label: its segments
/// trimmed and looked up, duplicates and unknown segments dropped.
pub open spec fn label_categories(label: Seq<char>) -> Seq<CategoryType> {
    collect_types(segment_types(label), Seq::<CategoryType>::empty())
}

/// Whether `ts` already holds the entry `t`.
fn types_contain(ts: &Vec<CategoryType>, t: CategoryType) -> (r: bool)
    ensures
        r == ts@.contains(t),
{
    let mut i: usize = 0;
    while i < ts.len()
        invariant
            i <= ts.len(),
            forall|j: int| 0 <= j < i ==> ts@[j] != t,
        decreases ts.len() - i,
    {
        if ts[i] == t {
            return true;
        }
        i += 1;
    }
    false
}

/// Builds the storage rows for a whole free-text label: one row per
/// canonical category of the label (see [`label_categories`]), each
/// under the entity `rid`.
pub fn get_categories_from(c: String, rid: &str) -> (r: Vec<Category>)
    ensures
        r@.len() == label_categories(c@).len(),
        forall|i: int|
            0 <= i < r@.len() ==> (#[trigger] r@[i]).restaurant_id@ == rid@ && r@[i].categories@
                == label_categories(c@)[i].name_spec(),
{
    let cs = chars_of(c.as_str());
    let segs = split_label_chars(&cs);
    let ghost ts = segment_types(c@);
    let mut types: Vec<CategoryType> = Vec::new();
    let mut i: usize = 0;
    assert(ts.skip(0) =~= ts);
    while i < segs.len()
        invariant
            i <= segs.len(),
            ts == segment_types(c@),
            segs@.len() == ts.len(),
            forall|k: int| 0 <= k < segs@.len() ==> #[trigger] segs@[k]@ == split_label(c@)[k],
            collect_types(ts, Seq::<CategoryType>::empty()) == collect_types(
                ts.skip(i as int),
                types@,
            ),
        decreases segs.len() - i,
    {
        let t = trim_chars(&segs[i]);
        let ct = CategoryType::from_chars(&t);
        assert(ct == ts[i as int]);
        proof {
            assert(ts.skip(i as int)[0] == ts[i as int]);
            assert(ts.skip(i as int).skip(1) =~= ts.skip((i + 1) as int));
        }
        if !(ct == CategoryType::UNDEFINED || types_contain(&types, ct)) {
            types.push(ct);
        }
        i += 1;
    }
    assert(ts.skip(segs@.len() as int) =~= Seq::<CategoryType>::empty());
    assert(types@ == label_categories(c@));
    let mut r: Vec<Category> = Vec::new();
    let mut j: usize = 0;
    while j < types.len()
        invariant
            j <= types.len(),
            types@ == label_categories(c@),
            r@.len() == j,
            forall|k: int|
                0 <= k < j ==> (#[trigger] r@[k]).restaurant_id@ == rid@ && r@[k].categories@
                    == label_categories(c@)[k].name_spec(),
        decreases types.len() - j,
    {
        r.push(
            Category {
                restaurant_id: rid.to_owned(),
                categories: types[j].name().to_owned(),
            },
        );
        j += 1;
    }
    r
}

} // verus!
