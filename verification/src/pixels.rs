//! Pixels: the smallest building material of structures, their variants and
//! the class-wide information (collectability, natural spawning) of each variant.

use vstd::prelude::*;

use crate::colour::Colour;

verus! {

/// The kind of a pixel.
#[derive(Debug, Clone, Copy, PartialEq, Eq, Hash, Structural)]
pub enum PixelVariant {
    Dirt,
    Copper,
    Lead,
    /// Used to create player
    PlayerSteel,
    /// Used for player engine
    PlayerLargeEngineDecoration,
}

/// Natural generation properties of a class of pixels.
#[derive(Debug, Clone, Copy)]
pub struct Natural {
    /// Higher the number, greater chance of spawning
    pub frequency: u16,
}

/// Collectability of a class of pixels.
#[derive(Debug, Clone, Copy)]
pub struct Collect {
    pub player_mineable: bool,
    pub amount_multiplier: u8,
}

/// Class-wide information about a [PixelVariant].
#[derive(Debug, Clone, Copy)]
pub struct PixelVariantInfo {
    pub collectable: Option<Collect>,
    pub naturally_spawning: Option<Natural>,
}

/// Data about a class of pixels or a special specific pixel.
///
/// Fields on this struct (ignoring the variant field) are specific to a
/// specific pixel and can change at runtime.
#[derive(Debug)]
pub struct RawPixel {
    name: String,
    description: String,
    colour: Colour,
    variant: PixelVariant,
}

/// What a [RawPixel] holds, with its text as character sequences.
pub struct RawPixelView {
    pub name: Seq<char>,
    pub description: Seq<char>,
    pub colour: Colour,
    pub variant: PixelVariant,
}

impl View for RawPixel {
    type V = RawPixelView;

    closed spec fn view(&self) -> RawPixelView {
        RawPixelView {
            name: self.name@,
            description: self.description@,
            colour: self.colour,
            variant: self.variant,
        }
    }
}

impl Clone for RawPixel {
    fn clone(&self) -> (res: Self)
        ensures
            res@ == self@,
    {
        RawPixel {
            name: self.name.clone(),
            description: self.description.clone(),
            colour: self.colour,
            variant: self.variant,
        }
    }
}

/// The actual data stored in the world and serialized between client / server.
#[derive(Debug)]
pub enum Pixel {
    Default { variant: PixelVariant },
    Special(RawPixel),
}

/// What a [Pixel] holds.
pub enum PixelView {
    Default { variant: PixelVariant },
    Special(RawPixelView),
}

impl View for Pixel {
    type V = PixelView;

    open spec fn view(&self) -> PixelView {
        match self {
            Pixel::Default { variant } => PixelView::Default { variant: *variant },
            Pixel::Special(raw) => PixelView::Special(raw@),
        }
    }
}

impl Clone for Pixel {
    fn clone(&self) -> (res: Self)
        ensures
            res@ == self@,
    {
        match self {
            Pixel::Default { variant } => Pixel::Default { variant: *variant },
            Pixel::Special(raw) => Pixel::Special(raw.clone()),
        }
    }
}

/// Every variant, in declaration order.
pub open spec fn all_variants() -> Seq<PixelVariant> {
    seq![
        PixelVariant::Dirt,
        PixelVariant::Copper,
        PixelVariant::Lead,
        PixelVariant::PlayerSteel,
        PixelVariant::PlayerLargeEngineDecoration,
    ]
}

/// The default (unmodified) pixel of each variant.
pub open spec fn default_raw(v: PixelVariant) -> RawPixelView {
    match v {
        PixelVariant::Dirt => RawPixelView {
            name: "Dirt"@,
            description: "Some dirt with no life in it"@,
            colour: Colour::Permille(300, 250, 0),
            variant: v,
        },
        PixelVariant::Copper => RawPixelView {
            name: "Copper"@,
            description: "A block of copper"@,
            colour: Colour::Permille(600, 250, 50),
            variant: v,
        },
        PixelVariant::Lead => RawPixelView {
            name: "Lead"@,
            description: "A block of lead"@,
            colour: Colour::Permille(750, 750, 750),
            variant: v,
        },
        PixelVariant::PlayerSteel => RawPixelView {
            name: "Player Steel"@,
            description: "Steel used in the construction of the MainPlayer"@,
            colour: Colour::Permille(750, 750, 750),
            variant: v,
        },
        PixelVariant::PlayerLargeEngineDecoration => RawPixelView {
            name: "Player Engine"@,
            description: "A decoration block"@,
            colour: Colour::Permille(1000, 0, 0),
            variant: v,
        },
    }
}

/// The class-wide information of each variant.
pub open spec fn variant_info(v: PixelVariant) -> PixelVariantInfo {
    match v {
        PixelVariant::Dirt => PixelVariantInfo {
            collectable: None,
            naturally_spawning: Some(Natural { frequency: 1000 }),
        },
        PixelVariant::Copper => PixelVariantInfo {
            collectable: Some(Collect { amount_multiplier: 5, player_mineable: true }),
            naturally_spawning: Some(Natural { frequency: 150 }),
        },
        PixelVariant::Lead => PixelVariantInfo {
            collectable: Some(Collect { amount_multiplier: 1, player_mineable: true }),
            naturally_spawning: Some(Natural { frequency: 3 }),
        },
        PixelVariant::PlayerSteel => PixelVariantInfo {
            collectable: None,
            naturally_spawning: None,
        },
        PixelVariant::PlayerLargeEngineDecoration => PixelVariantInfo {
            collectable: None,
            naturally_spawning: None,
        },
    }
}

/// Whether the class of pixels described by `info` can be mined by players.
pub open spec fn mineable(info: PixelVariantInfo) -> bool {
    match info.collectable {
        Some(collect) => collect.player_mineable,
        None => false,
    }
}

/// The naturally spawning variants of `vs`, in order, each with its spawning data.
pub open spec fn natural_pool_of(vs: Seq<PixelVariant>) -> Seq<(PixelVariant, Natural)>
    decreases vs.len(),
{
    if vs.len() == 0 {
        Seq::empty()
    } else {
        let rest = natural_pool_of(vs.drop_last());
        match variant_info(vs.last()).naturally_spawning {
            Some(natural) => rest.push((vs.last(), natural)),
            None => rest,
        }
    }
}

/// The player-mineable variants of `vs`, in order.
pub open spec fn mineable_of(vs: Seq<PixelVariant>) -> Seq<PixelVariant>
    decreases vs.len(),
{
    if vs.len() == 0 {
        Seq::empty()
    } else {
        let rest = mineable_of(vs.drop_last());
        if mineable(variant_info(vs.last())) {
            rest.push(vs.last())
        } else {
            rest
        }
    }
}

/// The raw data a pixel stands for: the default pixel of its variant, or its own data.
pub open spec fn raw_of(p: PixelView) -> RawPixelView {
    match p {
        PixelView::Default { variant } => default_raw(variant),
        PixelView::Special(raw) => raw,
    }
}

/// The variant of a pixel.
pub open spec fn variant_of(p: PixelView) -> PixelVariant {
    match p {
        PixelView::Default { variant } => variant,
        PixelView::Special(raw) => raw.variant,
    }
}

impl PixelVariant {
    /// The default pixel data and the class-wide information of this variant.
    fn default_hardcoded(self) -> (res: (RawPixel, PixelVariantInfo))
        ensures
            res.0@ == default_raw(self),
            res.1 == variant_info(self),
    {
        match self {
            PixelVariant::Dirt => (
                RawPixel {
                    name: "Dirt".to_owned(),
                    description: "Some dirt with no life in it".to_owned(),
                    colour: Colour::Permille(300, 250, 0),
                    variant: self,
                },
                PixelVariantInfo {
                    collectable: None,
                    naturally_spawning: Some(Natural { frequency: 1000 }),
                },
            ),
            PixelVariant::Copper => (
                RawPixel {
                    name: "Copper".to_owned(),
                    description: "A block of copper".to_owned(),
                    colour: Colour::Permille(600, 250, 50),
                    variant: self,
                },
                PixelVariantInfo {
                    collectable: Some(Collect { amount_multiplier: 5, player_mineable: true }),
                    naturally_spawning: Some(Natural { frequency: 150 }),
                },
            ),
            PixelVariant::Lead => (
                RawPixel {
                    name: "Lead".to_owned(),
                    description: "A block of lead".to_owned(),
                    colour: Colour::silver(),
                    variant: self,
                },
                PixelVariantInfo {
                    collectable: Some(Collect { amount_multiplier: 1, player_mineable: true }),
                    naturally_spawning: Some(Natural { frequency: 3 }),
                },
            ),
            PixelVariant::PlayerSteel => (
                RawPixel {
                    name: "Player Steel".to_owned(),
                    description: "Steel used in the construction of the MainPlayer".to_owned(),
                    colour: Colour::silver(),
                    variant: self,
                },
                PixelVariantInfo { collectable: None, naturally_spawning: None },
            ),
            PixelVariant::PlayerLargeEngineDecoration => (
                RawPixel {
                    name: "Player Engine".to_owned(),
                    description: "A decoration block".to_owned(),
                    colour: Colour::red(),
                    variant: self,
                },
                PixelVariantInfo { collectable: None, naturally_spawning: None },
            ),
        }
    }

    /// The default (unmodified) pixel data of this variant.
    pub fn get_default_pixel(self) -> (res: RawPixel)
        ensures
            res@ == default_raw(self),
    {
        self.default_hardcoded().0
    }

    /// The class-wide information of this variant.
    pub fn get_variant_info(self) -> (res: PixelVariantInfo)
        ensures
            res == variant_info(self),
    {
        self.default_hardcoded().1
    }

    /// Every variant, in declaration order.
    pub fn iter() -> (res: Vec<PixelVariant>)
        ensures
            res@ == all_variants(),
    {
        let v = vec![
            PixelVariant::Dirt,
            PixelVariant::Copper,
            PixelVariant::Lead,
            PixelVariant::PlayerSteel,
            PixelVariant::PlayerLargeEngineDecoration,
        ];
        assert(v@ =~= all_variants());
        v
    }

    /// Every naturally spawning variant, in declaration order, with its spawning data.
    pub fn natural_pool() -> (pool: Vec<(PixelVariant, Natural)>)
        ensures
            pool@ == natural_pool_of(all_variants()),
    {
        let variants = Self::iter();
        let mut pool: Vec<(PixelVariant, Natural)> = Vec::new();
        let mut i: usize = 0;
        while i < variants.len()
            invariant
                variants@ == all_variants(),
                i <= variants.len(),
                pool@ == natural_pool_of(variants@.take(i as int)),
            decreases variants.len() - i,
        {
            let variant = variants[i];
            proof {
                assert(variants@.take(i as int + 1).drop_last() =~= variants@.take(i as int));
            }
            match variant.get_variant_info().naturally_spawning {
                Some(natural) => {
                    pool.push((variant, natural));
                },
                None => {},
            }
            i = i + 1;
        }
        proof {
            assert(variants@.take(variants.len() as int) =~= variants@);
        }
        pool
    }

    /// Returns all variants that are mineable by the player, in declaration order.
    pub fn get_mineable_variants() -> (res: Vec<PixelVariant>)
        ensures
            res@ == mineable_of(all_variants()),
    {
        let variants = Self::iter();
        let mut res: Vec<PixelVariant> = Vec::new();
        let mut i: usize = 0;
        while i < variants.len()
            invariant
                variants@ == all_variants(),
                i <= variants.len(),
                res@ == mineable_of(variants@.take(i as int)),
            decreases variants.len() - i,
        {
            let variant = variants[i];
            proof {
                assert(variants@.take(i as int + 1).drop_last() =~= variants@.take(i as int));
            }
            if variant.get_variant_info().is_player_mineable() {
                res.push(variant);
            }
            i = i + 1;
        }
        proof {
            assert(variants@.take(variants.len() as int) =~= variants@);
        }
        res
    }
}

impl PixelVariantInfo {
    /// Whether players can mine pixels of this class.
    pub fn is_player_mineable(&self) -> (res: bool)
        ensures
            res == mineable(*self),
    {
        match &self.collectable {
            Some(collect) => collect.player_mineable,
            None => false,
        }
    }
}

impl Pixel {
    /// A special pixel carrying its own data.
    pub fn from_raw(raw: RawPixel) -> (res: Pixel)
        ensures
            res@ == PixelView::Special(raw@),
    {
        Pixel::Special(raw)
    }

    /// Creates a [Pixel] from a variant, assuming it is a default pixel with no
    /// special modifications / properties.
    pub fn default_from_variant(variant: PixelVariant) -> (res: Pixel)
        ensures
            res@ == (PixelView::Default { variant }),
    {
        Pixel::Default { variant }
    }

    /// The data of this pixel: the default pixel of its variant, or its own data.
    pub fn get_raw(&self) -> (res: RawPixel)
        ensures
            res@ == raw_of(self@),
    {
        match self {
            Pixel::Default { variant } => variant.get_default_pixel(),
            Pixel::Special(raw) => raw.clone(),
        }
    }

    pub fn get_name(&self) -> (res: String)
        ensures
            res@ == raw_of(self@).name,
    {
        self.get_raw().name
    }

    pub fn get_description(&self) -> (res: String)
        ensures
            res@ == raw_of(self@).description,
    {
        self.get_raw().description
    }

    pub fn get_colour(&self) -> (res: Colour)
        ensures
            res == raw_of(self@).colour,
    {
        self.get_raw().colour
    }

    pub fn get_variant(&self) -> (res: PixelVariant)
        ensures
            res == variant_of(self@),
    {
        match self {
            Pixel::Default { variant } => *variant,
            Pixel::Special(raw) => raw.variant,
        }
    }

    pub fn get_variant_info(&self) -> (res: PixelVariantInfo)
        ensures
            res == variant_info(variant_of(self@)),
    {
        self.get_variant().get_variant_info()
    }

    /// How often pixels of this pixel's variant spawn naturally, if they do.
    pub fn get_natural_frequency(&self) -> (res: Option<u16>)
        ensures
            res == (match variant_info(variant_of(self@)).naturally_spawning {
                Some(n) => Some(n.frequency),
                None => None::<u16>,
            }),
    {
        match self.get_variant_info().naturally_spawning {
            Some(n) => Some(n.frequency),
            None => None,
        }
    }
}

impl From<PixelVariant> for Pixel {
    fn from(value: PixelVariant) -> (res: Pixel) {
        Pixel::default_from_variant(value)
    }
}

impl vstd::std_specs::convert::FromSpecImpl<PixelVariant> for Pixel {
    open spec fn obeys_from_spec() -> bool {
        true
    }

    open spec fn from_spec(value: PixelVariant) -> Pixel {
        Pixel::Default { variant: value }
    }
}

/// A default pixel is of the variant it was made from, and holds that
/// variant's default data; a special pixel is of its own data's variant and
/// holds its own data.
pub proof fn lemma_pixel_variant_round_trip(v: PixelVariant, raw: RawPixelView)
    ensures
        variant_of(PixelView::Default { variant: v }) == v,
        raw_of(PixelView::Default { variant: v }) == default_raw(v),
        default_raw(v).variant == v,
        variant_of(PixelView::Special(raw)) == raw.variant,
        raw_of(PixelView::Special(raw)) == raw,
{
}

/// Every variant occurs exactly once among all variants.
pub proof fn lemma_all_variants_complete(v: PixelVariant)
    ensures
        all_variants().contains(v),
        all_variants().no_duplicates(),
{
    match v {
        PixelVariant::Dirt => assert(all_variants()[0] == v),
        PixelVariant::Copper => assert(all_variants()[1] == v),
        PixelVariant::Lead => assert(all_variants()[2] == v),
        PixelVariant::PlayerSteel => assert(all_variants()[3] == v),
        PixelVariant::PlayerLargeEngineDecoration => assert(all_variants()[4] == v),
    }
}

/// The natural pool holds a variant with its spawning data exactly when that
/// variant spawns naturally with that data.
pub proof fn lemma_natural_pool_members(v: PixelVariant, n: Natural)
    ensures
        natural_pool_of(all_variants()).contains((v, n)) <==> variant_info(v).naturally_spawning == Some(n),
{
    let vs = all_variants();
    reveal_with_fuel(natural_pool_of, 6);
    assert(vs.drop_last() =~= seq![PixelVariant::Dirt, PixelVariant::Copper, PixelVariant::Lead, PixelVariant::PlayerSteel]);
    assert(vs.drop_last().drop_last() =~= seq![PixelVariant::Dirt, PixelVariant::Copper, PixelVariant::Lead]);
    assert(vs.drop_last().drop_last().drop_last() =~= seq![PixelVariant::Dirt, PixelVariant::Copper]);
    assert(vs.drop_last().drop_last().drop_last().drop_last() =~= seq![PixelVariant::Dirt]);
    assert(seq![PixelVariant::Dirt].drop_last() =~= Seq::<PixelVariant>::empty());
    let pool = natural_pool_of(vs);
    assert(pool =~= seq![
        (PixelVariant::Dirt, Natural { frequency: 1000 }),
        (PixelVariant::Copper, Natural { frequency: 150 }),
        (PixelVariant::Lead, Natural { frequency: 3 }),
    ]);
    if variant_info(v).naturally_spawning == Some(n) {
        match v {
            PixelVariant::Dirt => assert(pool[0] == (v, n)),
            PixelVariant::Copper => assert(pool[1] == (v, n)),
            PixelVariant::Lead => assert(pool[2] == (v, n)),
            _ => {},
        }
    }
}

/// The mineable variants are exactly the variants whose pixels players can mine.
pub proof fn lemma_mineable_members(v: PixelVariant)
    ensures
        mineable_of(all_variants()).contains(v) <==> mineable(variant_info(v)),
{
    let vs = all_variants();
    reveal_with_fuel(mineable_of, 6);
    assert(vs.drop_last() =~= seq![PixelVariant::Dirt, PixelVariant::Copper, PixelVariant::Lead, PixelVariant::PlayerSteel]);
    assert(vs.drop_last().drop_last() =~= seq![PixelVariant::Dirt, PixelVariant::Copper, PixelVariant::Lead]);
    assert(vs.drop_last().drop_last().drop_last() =~= seq![PixelVariant::Dirt, PixelVariant::Copper]);
    assert(vs.drop_last().drop_last().drop_last().drop_last() =~= seq![PixelVariant::Dirt]);
    assert(seq![PixelVariant::Dirt].drop_last() =~= Seq::<PixelVariant>::empty());
    let m = mineable_of(vs);
    assert(m =~= seq![PixelVariant::Copper, PixelVariant::Lead]);
    if mineable(variant_info(v)) {
        match v {
            PixelVariant::Copper => assert(m[0] == v),
            PixelVariant::Lead => assert(m[1] == v),
            _ => {},
        }
    }
}

/// A pixel's natural frequency is the one its variant has in the natural pool.
pub proof fn lemma_natural_frequency_from_pool(p: PixelView, f: u16)
    ensures
        (match variant_info(variant_of(p)).naturally_spawning {
            Some(n) => Some(n.frequency),
            None => None::<u16>,
        }) == Some(f) <==> natural_pool_of(all_variants()).contains((variant_of(p), Natural { frequency: f })),
{
    lemma_natural_pool_members(variant_of(p), Natural { frequency: f });
}

/// What each variant is made of: its name, colour and class-wide data. Dirt
/// is brown and common, and cannot be collected; copper is copper-coloured,
/// fairly common, and yields five times its amount; lead is silver, rare, and
/// yields its amount once; the player's steel and engine blocks never spawn
/// and cannot be collected.
pub proof fn lemma_variant_table(v: PixelVariant)
    ensures
        v == PixelVariant::Dirt ==> default_raw(v).name == "Dirt"@ && default_raw(v).colour == Colour::Permille(
            300,
            250,
            0,
        ) && variant_info(v).collectable is None && variant_info(v).naturally_spawning == Some(
            Natural { frequency: 1000 },
        ),
        v == PixelVariant::Copper ==> default_raw(v).name == "Copper"@ && default_raw(v).colour == Colour::Permille(
            600,
            250,
            50,
        ) && variant_info(v).collectable == Some(Collect { amount_multiplier: 5, player_mineable: true })
            && variant_info(v).naturally_spawning == Some(Natural { frequency: 150 }),
        v == PixelVariant::Lead ==> default_raw(v).name == "Lead"@ && default_raw(v).colour == Colour::Permille(
            750,
            750,
            750,
        ) && variant_info(v).collectable == Some(Collect { amount_multiplier: 1, player_mineable: true })
            && variant_info(v).naturally_spawning == Some(Natural { frequency: 3 }),
        v == PixelVariant::PlayerSteel ==> default_raw(v).name == "Player Steel"@ && default_raw(v).colour
            == Colour::Permille(750, 750, 750) && variant_info(v).collectable is None
            && variant_info(v).naturally_spawning is None,
        v == PixelVariant::PlayerLargeEngineDecoration ==> default_raw(v).name == "Player Engine"@
            && default_raw(v).colour == Colour::Permille(1000, 0, 0) && variant_info(v).collectable is None
            && variant_info(v).naturally_spawning is None,
{
}

/// Players can tell the ores they mine apart: different mineable variants
/// have different default colours, and mining copper yields more than mining
/// the rarer lead.
pub proof fn lemma_mineable_variants_distinct(v: PixelVariant, w: PixelVariant)
    ensures
        mineable(variant_info(v)) && mineable(variant_info(w)) && v != w ==> default_raw(v).colour != default_raw(
            w,
        ).colour,
        variant_info(PixelVariant::Copper).collectable.unwrap().amount_multiplier
            > variant_info(PixelVariant::Lead).collectable.unwrap().amount_multiplier,
        variant_info(PixelVariant::Copper).naturally_spawning.unwrap().frequency
            > variant_info(PixelVariant::Lead).naturally_spawning.unwrap().frequency,
{
}

} // verus!
