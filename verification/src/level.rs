use crate::creature::{
    neighbor_cell, proposed_cell, Creature, CreatureKind,
};
use crate::decal::{decal_kind_max, Decal, DecalKind};
use crate::digits::{dec_digits, image_path};
use crate::tile::Tile;
use crate::utils::random;
use vstd::prelude::*;

verus! {

/// A named environmental theme: it determines the tile, decal and creature
/// asset sets of a level.
#[derive(Clone, Copy, PartialEq, Eq, Structural, Debug)]
pub enum LevelBiome {
    Desert,
    Grass,
    Ice,
    Marsh,
    Snow,
    Space,
}

/// Everything the biome catalog knows about one biome: how many tile image
/// variants exist, the folder the tile images live in, and which creature and
/// decal categories may be scattered over the level.
pub struct BiomeProfile {
    pub tile_image_count: u32,
    pub tile_folder: String,
    pub creature_categories: Vec<CreatureKind>,
    pub decal_categories: Vec<DecalKind>,
}

/// The folder holding a biome's tile images.
pub open spec fn biome_folder(b: LevelBiome) -> Seq<char> {
    match b {
        LevelBiome::Desert => "img/biomes/desert/"@,
        LevelBiome::Grass => "img/biomes/grass/"@,
        LevelBiome::Ice => "img/biomes/ice/"@,
        LevelBiome::Marsh => "img/biomes/marsh/"@,
        LevelBiome::Snow => "img/biomes/snow/"@,
        LevelBiome::Space => "img/biomes/space/"@,
    }
}

/// The number of tile image variants a biome offers; tile variants are drawn
/// from the half-open range `[1, biome_tile_count(b))`.
pub open spec fn biome_tile_count(b: LevelBiome) -> u32 {
    match b {
        LevelBiome::Desert => 10,
        LevelBiome::Grass => 9,
        LevelBiome::Ice => 6,
        LevelBiome::Marsh => 14,
        LevelBiome::Snow => 6,
        LevelBiome::Space => 14,
    }
}

/// The creature categories a biome allows, in catalog order.
pub open spec fn biome_creatures(b: LevelBiome) -> Seq<CreatureKind> {
    match b {
        LevelBiome::Space => seq![CreatureKind::AlienCreeper, CreatureKind::RoboticProbe],
        _ => seq![
            CreatureKind::Bobcat,
            CreatureKind::Pelican,
            CreatureKind::Skeleton,
            CreatureKind::Slime,
            CreatureKind::Wolf,
        ],
    }
}

/// The decal categories a biome allows, in catalog order.
pub open spec fn biome_decals(b: LevelBiome) -> Seq<DecalKind> {
    match b {
        LevelBiome::Desert => seq![
            DecalKind::Bones,
            DecalKind::Cactus,
            DecalKind::DeadVegetation,
            DecalKind::Rock,
        ],
        LevelBiome::Grass => seq![
            DecalKind::Flower,
            DecalKind::Plant,
            DecalKind::Mushroom,
            DecalKind::Rock,
        ],
        LevelBiome::Ice => seq![DecalKind::Rock],
        LevelBiome::Marsh => seq![
            DecalKind::Flower,
            DecalKind::Plant,
            DecalKind::Mushroom,
            DecalKind::Rock,
        ],
        LevelBiome::Snow => seq![DecalKind::Rock],
        LevelBiome::Space => seq![DecalKind::Asteroid, DecalKind::Planet],
    }
}

/// The tile image path for a biome and a variant number.
pub open spec fn tile_img_spec(b: LevelBiome, v: u32) -> Seq<char> {
    biome_folder(b) + dec_digits(v as nat) + ".png"@
}

/// Whether a string is a well-formed tile image path for the biome: some
/// variant in `[1, biome_tile_count(b))` renders to it.
pub open spec fn tile_img_ok(b: LevelBiome, s: Seq<char>) -> bool {
    exists|v: u32| 1 <= v < biome_tile_count(b) && s == #[trigger] tile_img_spec(b, v)
}

/// Every well-formed tile image path of a biome sits inside that biome's
/// folder: the path begins with the folder name and goes on past it. After a
/// biome change, then, each tile's image path names the new biome's folder.
pub proof fn lemma_tile_img_in_folder(b: LevelBiome, s: Seq<char>)
    requires
        tile_img_ok(b, s),
    ensures
        s.len() > biome_folder(b).len(),
        s.subrange(0, biome_folder(b).len() as int) == biome_folder(b),
{
    let v = choose|v: u32| 1 <= v < biome_tile_count(b) && s == #[trigger] tile_img_spec(b, v);
    crate::digits::lemma_dec_digits_len(v as nat);
    reveal_strlit(".png");
    assert(".png"@.len() == 4);
    assert(s.subrange(0, biome_folder(b).len() as int) =~= biome_folder(b));
}

/// The decal image path for a category and a variant number.
pub open spec fn decal_img_spec(k: DecalKind, v: u32) -> Seq<char> {
    "img/decals/"@ + k.name_spec() + dec_digits(v as nat) + ".png"@
}

/// The variant numbers initial generation may pick for a decal category:
/// `[1, max)`, except that a single-variant category always yields 1.
pub open spec fn decal_variant_ok(k: DecalKind, v: u32) -> bool {
    if decal_kind_max(k) == 1 {
        v == 1
    } else {
        1 <= v < decal_kind_max(k)
    }
}

/// The variant numbers a biome change may pick for a decal category:
/// `[1, max]`, except that a single-variant category always yields 1.
pub open spec fn decal_variant_reroll_ok(k: DecalKind, v: u32) -> bool {
    if decal_kind_max(k) == 1 {
        v == 1
    } else {
        1 <= v <= decal_kind_max(k)
    }
}

/// Whether a string is a decal image path the biome's initial generation can
/// produce.
pub open spec fn decal_img_ok(b: LevelBiome, s: Seq<char>) -> bool {
    exists|k: DecalKind, v: u32|
        biome_decals(b).contains(k) && decal_variant_ok(k, v) && s == #[trigger] decal_img_spec(
            k,
            v,
        )
}

/// Whether a string is a decal image path a biome change can produce.
pub open spec fn decal_img_reroll_ok(b: LevelBiome, s: Seq<char>) -> bool {
    exists|k: DecalKind, v: u32|
        biome_decals(b).contains(k) && decal_variant_reroll_ok(k, v) && s
            == #[trigger] decal_img_spec(k, v)
}

/// The creature image path for a category and a variant number.
pub open spec fn creature_img_spec(k: CreatureKind, v: u32) -> Seq<char> {
    "img/creatures/"@ + k.name_spec() + dec_digits(v as nat) + ".png"@
}

/// Whether a string is a creature image path for the biome. Every creature
/// category has exactly one variant, so the variant is always 1.
pub open spec fn creature_img_ok(b: LevelBiome, s: Seq<char>) -> bool {
    exists|k: CreatureKind| biome_creatures(b).contains(k) && s == #[trigger] creature_img_spec(
        k,
        1,
    )
}

/// The successor of each biome in the fixed cycling order the digit key
/// walks through.
pub open spec fn next_biome_spec(b: LevelBiome) -> LevelBiome {
    match b {
        LevelBiome::Desert => LevelBiome::Grass,
        LevelBiome::Grass => LevelBiome::Ice,
        LevelBiome::Ice => LevelBiome::Marsh,
        LevelBiome::Marsh => LevelBiome::Snow,
        LevelBiome::Snow => LevelBiome::Space,
        LevelBiome::Space => LevelBiome::Desert,
    }
}

/// The biome the level switches to when the player cycles biomes.
pub fn cycle_biome(b: &LevelBiome) -> (r: LevelBiome)
    ensures
        r == next_biome_spec(*b),
{
    match b {
        LevelBiome::Desert => LevelBiome::Grass,
        LevelBiome::Grass => LevelBiome::Ice,
        LevelBiome::Ice => LevelBiome::Marsh,
        LevelBiome::Marsh => LevelBiome::Snow,
        LevelBiome::Snow => LevelBiome::Space,
        LevelBiome::Space => LevelBiome::Desert,
    }
}

/// The grid cells of a sequence of decals, in order.
pub open spec fn decal_cells(s: Seq<Decal>) -> Seq<(u32, u32)> {
    s.map_values(|d: Decal| (d.x, d.y))
}

/// The grid cells of a sequence of creatures, in order.
pub open spec fn creature_cells(s: Seq<Creature>) -> Seq<(u32, u32)> {
    s.map_values(|c: Creature| (c.x, c.y))
}

/// No cell occurs twice in the sequence.
pub open spec fn distinct_cells(s: Seq<(u32, u32)>) -> bool {
    forall|i: int, j: int| 0 <= i < j < s.len() ==> s[i] != s[j]
}

/// A tile as initial generation leaves it: laid out in a 22-column-major
/// grid (tile `i` covers cell `(i / 22, i % 22)`), not yet spawned, with a
/// tile image of the given biome.
pub open spec fn tile_fresh_at(t: Tile, i: int, b: LevelBiome) -> bool {
    &&& t.x == i / 22
    &&& t.y == i % 22
    &&& !t.initialized
    &&& t.entity == 0
    &&& tile_img_ok(b, t.img@)
}

/// The generated map: a fixed 22 by 22 tile grid, scattered decals and
/// creatures, and the category lists of the current biome.
pub struct Level {
    pub biome: LevelBiome,
    pub tiles: Vec<Tile>,
    pub creatures: Vec<Creature>,
    pub creature_types: Vec<CreatureKind>,
    pub decals: Vec<Decal>,
    pub decal_types: Vec<DecalKind>,
}

impl Level {
    /// The biome catalog: everything generation needs to know about one
    /// biome. Pure; adding a biome means adding one arm to each table here.
    pub fn set_biome(biome: &LevelBiome) -> (p: BiomeProfile)
        ensures
            p.tile_image_count == biome_tile_count(*biome),
            p.tile_image_count >= 1,
            p.tile_folder@ == biome_folder(*biome),
            p.creature_categories@ == biome_creatures(*biome),
            p.creature_categories@.len() >= 1,
            p.decal_categories@ == biome_decals(*biome),
            p.decal_categories@.len() >= 1,
    {
        let tile_image_count: u32;
        let creature_categories: Vec<CreatureKind>;
        let decal_categories: Vec<DecalKind>;

        let tile_folder: &'static str = match biome {
            LevelBiome::Desert => {
                tile_image_count = 10;
                creature_categories = land_creature_categories();
                decal_categories = vec![
                    DecalKind::Bones,
                    DecalKind::Cactus,
                    DecalKind::DeadVegetation,
                    DecalKind::Rock,
                ];
                "img/biomes/desert/"
            },
            LevelBiome::Grass => {
                tile_image_count = 9;
                creature_categories = land_creature_categories();
                decal_categories = vec![
                    DecalKind::Flower,
                    DecalKind::Plant,
                    DecalKind::Mushroom,
                    DecalKind::Rock,
                ];
                "img/biomes/grass/"
            },
            LevelBiome::Ice => {
                tile_image_count = 6;
                creature_categories = land_creature_categories();
                decal_categories = vec![DecalKind::Rock];
                "img/biomes/ice/"
            },
            LevelBiome::Marsh => {
                tile_image_count = 14;
                creature_categories = land_creature_categories();
                decal_categories = vec![
                    DecalKind::Flower,
                    DecalKind::Plant,
                    DecalKind::Mushroom,
                    DecalKind::Rock,
                ];
                "img/biomes/marsh/"
            },
            LevelBiome::Snow => {
                tile_image_count = 6;
                creature_categories = land_creature_categories();
                decal_categories = vec![DecalKind::Rock];
                "img/biomes/snow/"
            },
            LevelBiome::Space => {
                tile_image_count = 14;
                creature_categories = vec![
                    CreatureKind::AlienCreeper,
                    CreatureKind::RoboticProbe,
                ];
                decal_categories = vec![DecalKind::Asteroid, DecalKind::Planet];
                "img/biomes/space/"
            },
        };
        proof {
            assert(creature_categories@ =~= biome_creatures(*biome));
            assert(decal_categories@ =~= biome_decals(*biome));
        }
        BiomeProfile {
            tile_image_count,
            tile_folder: String::from_str(tile_folder),
            creature_categories,
            decal_categories,
        }
    }

    /// Generates a level for the biome: the full 22 by 22 tile grid, then 35
    /// to 44 scattered decals, then 6 to 11 scattered creatures, where a
    /// sampled cell that is already taken is skipped (never retried), so no
    /// two decals or creatures share a cell.
    pub fn new(biome: LevelBiome) -> (lvl: Level)
        ensures
            lvl.biome == biome,
            lvl.creature_types@ == biome_creatures(biome),
            lvl.decal_types@ == biome_decals(biome),
            lvl.tiles@.len() == 484,
            forall|i: int| 0 <= i < 484 ==> #[trigger] tile_fresh_at(lvl.tiles@[i], i, biome),
            lvl.decals@.len() <= 44,
            forall|i: int| 0 <= i < lvl.decals@.len() ==> #[trigger] decal_fresh(
                lvl.decals@[i],
                biome,
            ),
            lvl.creatures@.len() <= 11,
            forall|i: int| 0 <= i < lvl.creatures@.len() ==> #[trigger] creature_fresh(
                lvl.creatures@[i],
                biome,
            ),
            distinct_cells(decal_cells(lvl.decals@) + creature_cells(lvl.creatures@)),
            distinct_cells(creature_cells(lvl.creatures@)),
            distinct_cells(decal_cells(lvl.decals@)),
    {
        let p = Level::set_biome(&biome);
        let mut coords: Vec<(u32, u32)> = Vec::new();
        let tiles = generate_tiles(biome, &p);
        let decals = scatter_decals(biome, &p, &mut coords);
        let creatures = scatter_creatures(biome, &p, &mut coords);
        proof {
            let all = decal_cells(decals@) + creature_cells(creatures@);
            assert(coords@ == all);
            lemma_distinct_sub(decal_cells(decals@), creature_cells(creatures@));
        }
        Level {
            biome,
            tiles,
            creatures,
            creature_types: p.creature_categories,
            decals,
            decal_types: p.decal_categories,
        }
    }

    pub fn get_biome(&self) -> (r: &LevelBiome)
        ensures
            r == self.biome,
    {
        &self.biome
    }

    /// Changes the level's biome as a purely visual transform: the category
    /// lists are replaced and every existing tile, decal and creature gets a
    /// freshly sampled image from the new biome's asset set, while all grid
    /// positions, counts and presentation state stay exactly as they were.
    pub fn change(&mut self, biome: LevelBiome)
        ensures
            final(self).biome == biome,
            final(self).creature_types@ == biome_creatures(biome),
            final(self).decal_types@ == biome_decals(biome),
            final(self).tiles@.len() == old(self).tiles@.len(),
            forall|i: int|
                0 <= i < old(self).tiles@.len() ==> #[trigger] tile_rerolled(
                    final(self).tiles@[i],
                    old(self).tiles@[i],
                    biome,
                ),
            final(self).decals@.len() == old(self).decals@.len(),
            forall|i: int|
                0 <= i < old(self).decals@.len() ==> #[trigger] decal_rerolled(
                    final(self).decals@[i],
                    old(self).decals@[i],
                    biome,
                ),
            final(self).creatures@.len() == old(self).creatures@.len(),
            forall|i: int|
                0 <= i < old(self).creatures@.len() ==> #[trigger] creature_rerolled(
                    final(self).creatures@[i],
                    old(self).creatures@[i],
                    biome,
                ),
            decal_cells(final(self).decals@) == decal_cells(old(self).decals@),
            creature_cells(final(self).creatures@) == creature_cells(old(self).creatures@),
    {
        let p = Level::set_biome(&biome);
        let tile_count = p.tile_image_count;
        let folder = p.tile_folder;

        self.biome = biome;
        self.creature_types = p.creature_categories;
        self.decal_types = p.decal_categories;

        proof {
            assert(biome_tile_count(biome) >= 2);
            assert(biome_creatures(biome).len() <= 5);
            assert(biome_decals(biome).len() <= 4);
        }

        let tn = self.tiles.len();
        let mut i: usize = 0;
        while i < tn
            invariant
                i <= tn,
                self.tiles@.len() == tn == old(self).tiles@.len(),
                forall|j: int| i <= j < tn ==> self.tiles@[j] == old(self).tiles@[j],
                forall|j: int|
                    0 <= j < i ==> #[trigger] tile_rerolled(
                        self.tiles@[j],
                        old(self).tiles@[j],
                        biome,
                    ),
                tile_count == biome_tile_count(biome),
                biome_tile_count(biome) >= 2,
                folder@ == biome_folder(biome),
                self.biome == biome,
                self.creature_types@ == biome_creatures(biome),
                self.decal_types@ == biome_decals(biome),
                self.creatures@ == old(self).creatures@,
                self.decals@ == old(self).decals@,
            decreases tn - i,
        {
            let img_num = random(1, tile_count);
            let img = image_path(folder.as_str(), img_num, ".png");
            proof {
                assert(img@ == tile_img_spec(biome, img_num));
                assert(tile_img_ok(biome, img@));
            }
            self.tiles[i].set_image(img);
            i += 1;
        }

        let cn = self.creatures.len();
        let mut i: usize = 0;
        while i < cn
            invariant
                i <= cn,
                self.creatures@.len() == cn == old(self).creatures@.len(),
                forall|j: int| i <= j < cn ==> self.creatures@[j] == old(self).creatures@[j],
                forall|j: int|
                    0 <= j < i ==> #[trigger] creature_rerolled(
                        self.creatures@[j],
                        old(self).creatures@[j],
                        biome,
                    ),
                self.biome == biome,
                self.creature_types@ == biome_creatures(biome),
                biome_creatures(biome).len() <= 5,
                self.decal_types@ == biome_decals(biome),
                self.decals@ == old(self).decals@,
                self.tiles@.len() == old(self).tiles@.len(),
                forall|j: int|
                    0 <= j < self.tiles@.len() ==> #[trigger] tile_rerolled(
                        self.tiles@[j],
                        old(self).tiles@[j],
                        biome,
                    ),
            decreases cn - i,
        {
            let ti = random(0, self.creature_types.len() as u32) as usize;
            let kind = self.creature_types[ti];
            let cmax = Creature::get_creature_type_max(kind);
            let img_num = random(1, cmax);
            let prefix = String::from_str("img/creatures/").concat(kind.name());
            let img = image_path(prefix.as_str(), img_num, ".png");
            proof {
                assert(img@ =~= creature_img_spec(kind, 1));
                assert(biome_creatures(biome)[ti as int] == kind);
                assert(biome_creatures(biome).contains(kind));
                assert(creature_img_ok(biome, img@));
            }
            self.creatures[i].set_image(img);
            i += 1;
        }

        let dn = self.decals.len();
        let mut i: usize = 0;
        while i < dn
            invariant
                i <= dn,
                self.decals@.len() == dn == old(self).decals@.len(),
                forall|j: int| i <= j < dn ==> self.decals@[j] == old(self).decals@[j],
                forall|j: int|
                    0 <= j < i ==> #[trigger] decal_rerolled(
                        self.decals@[j],
                        old(self).decals@[j],
                        biome,
                    ),
                self.biome == biome,
                self.creature_types@ == biome_creatures(biome),
                self.decal_types@ == biome_decals(biome),
                biome_decals(biome).len() <= 4,
                self.tiles@.len() == old(self).tiles@.len(),
                forall|j: int|
                    0 <= j < self.tiles@.len() ==> #[trigger] tile_rerolled(
                        self.tiles@[j],
                        old(self).tiles@[j],
                        biome,
                    ),
                self.creatures@.len() == old(self).creatures@.len(),
                forall|j: int|
                    0 <= j < self.creatures@.len() ==> #[trigger] creature_rerolled(
                        self.creatures@[j],
                        old(self).creatures@[j],
                        biome,
                    ),
            decreases dn - i,
        {
            let ti = random(0, self.decal_types.len() as u32) as usize;
            let kind = self.decal_types[ti];
            let dmax = Decal::get_decal_type_max(kind);
            proof {
                assert(decal_kind_max(kind) <= 14);
            }
            let img_num = if dmax == 1 {
                1
            } else {
                random(1, dmax + 1)
            };
            let prefix = String::from_str("img/decals/").concat(kind.name());
            let img = image_path(prefix.as_str(), img_num, ".png");
            proof {
                assert(img@ =~= decal_img_spec(kind, img_num));
                assert(biome_decals(biome)[ti as int] == kind);
                assert(biome_decals(biome).contains(kind));
                assert(decal_variant_reroll_ok(kind, img_num));
                assert(decal_img_reroll_ok(biome, img@));
            }
            self.decals[i].set_image(img);
            i += 1;
        }

        proof {
            assert forall|j: int| 0 <= j < self.decals@.len() implies decal_cells(self.decals@)[j]
                == decal_cells(old(self).decals@)[j] by {
                assert(decal_rerolled(self.decals@[j], old(self).decals@[j], biome));
            }
            assert(decal_cells(self.decals@) =~= decal_cells(old(self).decals@));
            assert forall|j: int| 0 <= j < self.creatures@.len() implies creature_cells(
                self.creatures@,
            )[j] == creature_cells(old(self).creatures@)[j] by {
                assert(creature_rerolled(self.creatures@[j], old(self).creatures@[j], biome));
            }
            assert(creature_cells(self.creatures@) =~= creature_cells(old(self).creatures@));
        }
    }

    /// Advances every creature one turn, in creature order. Each creature
    /// proposes a random neighbour cell; the move is rejected when the cell
    /// is occupied by any creature at that moment (creatures processed
    /// earlier already stand on their new cells, so earlier movers block
    /// later ones), and a rejected creature stays where it is.
    pub fn next_turn(&mut self)
        requires
            distinct_cells(creature_cells(old(self).creatures@)),
        ensures
            final(self).biome == old(self).biome,
            final(self).tiles@ == old(self).tiles@,
            final(self).decals@ == old(self).decals@,
            final(self).creature_types@ == old(self).creature_types@,
            final(self).decal_types@ == old(self).decal_types@,
            final(self).creatures@.len() == old(self).creatures@.len(),
            forall|i: int|
                0 <= i < old(self).creatures@.len() ==> #[trigger] creature_stepped(
                    old(self).creatures@[i],
                    final(self).creatures@[i],
                    creature_cells(old(self).creatures@),
                    creature_cells(final(self).creatures@),
                    i,
                ),
            distinct_cells(creature_cells(final(self).creatures@)),
    {
        let mut positions = self.get_creature_positions();
        let n = self.creatures.len();
        let mut i: usize = 0;
        while i < n
            invariant
                i <= n,
                self.creatures@.len() == n == old(self).creatures@.len(),
                self.biome == old(self).biome,
                self.tiles@ == old(self).tiles@,
                self.decals@ == old(self).decals@,
                self.creature_types@ == old(self).creature_types@,
                self.decal_types@ == old(self).decal_types@,
                positions@ == creature_cells(self.creatures@),
                distinct_cells(positions@),
                forall|j: int| i <= j < n ==> self.creatures@[j] == old(self).creatures@[j],
                forall|j: int|
                    0 <= j < i ==> #[trigger] creature_stepped(
                        old(self).creatures@[j],
                        self.creatures@[j],
                        creature_cells(old(self).creatures@),
                        creature_cells(self.creatures@),
                        j,
                    ),
            decreases n - i,
        {
            let ghost cells_before = creature_cells(self.creatures@);
            let ghost creatures_before = self.creatures@;
            let proposal = self.creatures[i].next_turn();
            let accepted = step_creature(&mut positions, i, proposal);
            self.creatures[i].set_x(accepted.0);
            self.creatures[i].set_y(accepted.1);
            proof {
                let prev = creature_cells(old(self).creatures@);
                let now = creature_cells(self.creatures@);
                assert forall|m: int| 0 <= m < n && m != i implies self.creatures@[m]
                    == creatures_before[m] by {}
                assert(positions@ =~= now);
                assert(occ_at(prev, now, i as int) =~= cells_before);
                let c0 = old(self).creatures@[i as int];
                let c1 = self.creatures@[i as int];
                assert(cells_before[i as int] == (c0.x, c0.y));
                assert(accepted == step_cell((c0.x, c0.y), proposal, cells_before));
                assert((c1.x, c1.y) == accepted);
                assert(creature_stepped(c0, c1, prev, now, i as int));
                assert forall|j: int| 0 <= j < i implies creature_stepped(
                    old(self).creatures@[j],
                    self.creatures@[j],
                    prev,
                    now,
                    j,
                ) by {
                    assert(creature_stepped(
                        old(self).creatures@[j],
                        creatures_before[j],
                        prev,
                        cells_before,
                        j,
                    ));
                    assert(occ_at(prev, cells_before, j) =~= occ_at(prev, now, j));
                    lemma_stepped_congruence(
                        old(self).creatures@[j],
                        creatures_before[j],
                        prev,
                        cells_before,
                        now,
                        j,
                    );
                }
            }
            i += 1;
        }
    }

    pub fn get_creature_positions(&self) -> (r: Vec<(u32, u32)>)
        ensures
            r@ == creature_cells(self.creatures@),
    {
        let mut positions: Vec<(u32, u32)> = Vec::new();
        let mut i: usize = 0;
        while i < self.creatures.len()
            invariant
                i <= self.creatures@.len(),
                positions@ == creature_cells(self.creatures@).take(i as int),
            decreases self.creatures@.len() - i,
        {
            let c = &self.creatures[i];
            positions.push((c.get_x(), c.get_y()));
            proof {
                assert(positions@ =~= creature_cells(self.creatures@).take(i + 1));
            }
            i += 1;
        }
        proof {
            assert(positions@ =~= creature_cells(self.creatures@));
        }
        positions
    }
}

/// A tile after a biome change: geometry and presentation state kept, image
/// rerolled for the new biome.
pub open spec fn tile_rerolled(t: Tile, t0: Tile, b: LevelBiome) -> bool {
    &&& t.x == t0.x
    &&& t.y == t0.y
    &&& t.initialized == t0.initialized
    &&& t.entity == t0.entity
    &&& tile_img_ok(b, t.img@)
}

/// A decal after a biome change: geometry and presentation state kept, image
/// rerolled for the new biome.
pub open spec fn decal_rerolled(d: Decal, d0: Decal, b: LevelBiome) -> bool {
    &&& d.x == d0.x
    &&& d.y == d0.y
    &&& d.initialized == d0.initialized
    &&& d.entity == d0.entity
    &&& decal_img_reroll_ok(b, d.img@)
}

/// A creature after a biome change: geometry and presentation state kept,
/// image rerolled for the new biome.
pub open spec fn creature_rerolled(c: Creature, c0: Creature, b: LevelBiome) -> bool {
    &&& c.x == c0.x
    &&& c.y == c0.y
    &&& c.initialized == c0.initialized
    &&& c.entity == c0.entity
    &&& creature_img_ok(b, c.img@)
}

/// A decal as initial generation leaves it: on the grid, not yet spawned,
/// with an image its biome's catalog can produce.
pub open spec fn decal_fresh(d: Decal, b: LevelBiome) -> bool {
    &&& d.x < 22
    &&& d.y < 22
    &&& !d.initialized
    &&& d.entity == 0
    &&& decal_img_ok(b, d.img@)
}

/// A creature as initial generation leaves it.
pub open spec fn creature_fresh(c: Creature, b: LevelBiome) -> bool {
    &&& c.x < 22
    &&& c.y < 22
    &&& !c.initialized
    &&& c.entity == 0
    &&& creature_img_ok(b, c.img@)
}

/// Whether the vector holds the cell, decided by scanning.
fn contains_cell(v: &Vec<(u32, u32)>, c: (u32, u32)) -> (r: bool)
    ensures
        r == v@.contains(c),
{
    let mut i: usize = 0;
    while i < v.len()
        invariant
            i <= v@.len(),
            forall|j: int| 0 <= j < i ==> v@[j] != c,
        decreases v@.len() - i,
    {
        let e = v[i];
        if e.0 == c.0 && e.1 == c.1 {
            proof {
                assert(e == c);
                assert(v@.contains(c));
            }
            return true;
        }
        i += 1;
    }
    proof {
        assert(!v@.contains(c));
    }
    false
}

proof fn lemma_distinct_sub(a: Seq<(u32, u32)>, b: Seq<(u32, u32)>)
    requires
        distinct_cells(a + b),
    ensures
        distinct_cells(a),
        distinct_cells(b),
{
    assert forall|i: int, j: int| 0 <= i < j < a.len() implies a[i] != a[j] by {
        assert((a + b)[i] == a[i] && (a + b)[j] == a[j]);
    }
    assert forall|i: int, j: int| 0 <= i < j < b.len() implies b[i] != b[j] by {
        assert((a + b)[a.len() + i] == b[i] && (a + b)[a.len() + j] == b[j]);
    }
}

proof fn lemma_distinct_push(s: Seq<(u32, u32)>, c: (u32, u32))
    requires
        distinct_cells(s),
        !s.contains(c),
    ensures
        distinct_cells(s.push(c)),
{
    assert forall|i: int, j: int| 0 <= i < j < s.push(c).len() implies s.push(c)[i] != s.push(
        c,
    )[j] by {
        if j == s.len() {
            assert(s[i] != c);
        }
    }
}

/// Builds the fixed 22 by 22 tile grid, each cell with a uniformly sampled
/// tile variant of the biome.
fn generate_tiles(biome: LevelBiome, p: &BiomeProfile) -> (tiles: Vec<Tile>)
    requires
        p.tile_image_count == biome_tile_count(biome),
        p.tile_folder@ == biome_folder(biome),
    ensures
        tiles@.len() == 484,
        forall|i: int| 0 <= i < 484 ==> #[trigger] tile_fresh_at(tiles@[i], i, biome),
{
    proof {
        assert(biome_tile_count(biome) >= 2);
    }
    let mut tiles: Vec<Tile> = Vec::new();
    let mut x: u32 = 0;
    while x < 22
        invariant
            x <= 22,
            tiles@.len() == 22 * x,
            forall|i: int| 0 <= i < tiles@.len() ==> #[trigger] tile_fresh_at(tiles@[i], i, biome),
            p.tile_image_count == biome_tile_count(biome),
            p.tile_folder@ == biome_folder(biome),
            biome_tile_count(biome) >= 2,
        decreases 22 - x,
    {
        let mut y: u32 = 0;
        while y < 22
            invariant
                x < 22,
                y <= 22,
                tiles@.len() == 22 * x + y,
                forall|i: int|
                    0 <= i < tiles@.len() ==> #[trigger] tile_fresh_at(tiles@[i], i, biome),
                p.tile_image_count == biome_tile_count(biome),
                p.tile_folder@ == biome_folder(biome),
                biome_tile_count(biome) >= 2,
            decreases 22 - y,
        {
            let img_num = random(1, p.tile_image_count);
            let img = image_path(p.tile_folder.as_str(), img_num, ".png");
            let tile = Tile::new(x, y, img);
            proof {
                assert(tile.img@ == tile_img_spec(biome, img_num));
                assert(tile_img_ok(biome, tile.img@));
                let i = tiles@.len() as int;
                assert((22 * x + y) / 22 == x && (22 * x + y) % 22 == y) by (nonlinear_arith)
                    requires
                        x < 22,
                        y < 22,
                ;
                assert(tile_fresh_at(tile, i, biome));
            }
            tiles.push(tile);
            y += 1;
        }
        x += 1;
    }
    tiles
}

/// Scatters between 35 and 44 decals over free cells. A sampled cell that is
/// already occupied is skipped, not retried, so collisions reduce the final
/// count. `coords` records every cell taken.
fn scatter_decals(biome: LevelBiome, p: &BiomeProfile, coords: &mut Vec<(u32, u32)>) -> (decals:
    Vec<Decal>)
    requires
        old(coords)@.len() == 0,
        p.decal_categories@ == biome_decals(biome),
        p.decal_categories@.len() >= 1,
    ensures
        decals@.len() <= 44,
        forall|i: int| 0 <= i < decals@.len() ==> #[trigger] decal_fresh(decals@[i], biome),
        final(coords)@ == decal_cells(decals@),
        distinct_cells(final(coords)@),
{
    proof {
        assert(biome_decals(biome).len() <= 4);
    }
    let count = random(35, 45);
    let mut decals: Vec<Decal> = Vec::new();
    let mut d: u32 = 0;
    while d < count
        invariant
            count <= 44,
            d <= count,
            decals@.len() <= d,
            forall|i: int| 0 <= i < decals@.len() ==> #[trigger] decal_fresh(decals@[i], biome),
            coords@ == decal_cells(decals@),
            distinct_cells(coords@),
            p.decal_categories@ == biome_decals(biome),
            p.decal_categories@.len() >= 1,
            biome_decals(biome).len() <= 4,
        decreases count - d,
    {
        let xy = (random(0, 22), random(0, 22));
        if !contains_cell(coords, xy) {
            coords.push(xy);
            let ti = random(0, p.decal_categories.len() as u32) as usize;
            let kind = p.decal_categories[ti];
            let dmax = Decal::get_decal_type_max(kind);
            let img_num = random(1, dmax);
            let prefix = String::from_str("img/decals/").concat(kind.name());
            let img = image_path(prefix.as_str(), img_num, ".png");
            let dec = Decal::new(xy.0, xy.1, img);
            proof {
                assert(dec.img@ =~= decal_img_spec(kind, img_num));
                assert(biome_decals(biome)[ti as int] == kind);
                assert(biome_decals(biome).contains(kind));
                assert(decal_variant_ok(kind, img_num));
                assert(decal_img_ok(biome, dec.img@));
                lemma_distinct_push(coords@.drop_last(), xy);
                assert(coords@.drop_last().push(xy) =~= coords@);
            }
            decals.push(dec);
            proof {
                assert(coords@ =~= decal_cells(decals@));
            }
        }
        d += 1;
    }
    decals
}

/// Scatters between 6 and 11 creatures over cells not already taken by a
/// decal or an earlier creature, with the same skip-on-collision policy.
fn scatter_creatures(biome: LevelBiome, p: &BiomeProfile, coords: &mut Vec<(u32, u32)>) -> (
    creatures: Vec<Creature>)
    requires
        distinct_cells(old(coords)@),
        p.creature_categories@ == biome_creatures(biome),
        p.creature_categories@.len() >= 1,
    ensures
        creatures@.len() <= 11,
        forall|i: int| 0 <= i < creatures@.len() ==> #[trigger] creature_fresh(
            creatures@[i],
            biome,
        ),
        final(coords)@ == old(coords)@ + creature_cells(creatures@),
        distinct_cells(final(coords)@),
{
    proof {
        assert(biome_creatures(biome).len() <= 5);
        assert(old(coords)@ + creature_cells(Seq::<Creature>::empty()) =~= old(coords)@);
    }
    let count = random(6, 12);
    let mut creatures: Vec<Creature> = Vec::new();
    let mut d: u32 = 0;
    while d < count
        invariant
            count <= 11,
            d <= count,
            creatures@.len() <= d,
            forall|i: int| 0 <= i < creatures@.len() ==> #[trigger] creature_fresh(
                creatures@[i],
                biome,
            ),
            coords@ == old(coords)@ + creature_cells(creatures@),
            distinct_cells(coords@),
            p.creature_categories@ == biome_creatures(biome),
            p.creature_categories@.len() >= 1,
            biome_creatures(biome).len() <= 5,
        decreases count - d,
    {
        let xy = (random(0, 22), random(0, 22));
        if !contains_cell(coords, xy) {
            coords.push(xy);
            let ti = random(0, p.creature_categories.len() as u32) as usize;
            let kind = p.creature_categories[ti];
            let cmax = Creature::get_creature_type_max(kind);
            let img_num = random(1, cmax);
            let prefix = String::from_str("img/creatures/").concat(kind.name());
            let img = image_path(prefix.as_str(), img_num, ".png");
            let c = Creature::new(xy.0, xy.1, img);
            proof {
                assert(c.img@ =~= creature_img_spec(kind, 1));
                assert(biome_creatures(biome)[ti as int] == kind);
                assert(biome_creatures(biome).contains(kind));
                assert(creature_img_ok(biome, c.img@));
                lemma_distinct_push(coords@.drop_last(), xy);
                assert(coords@.drop_last().push(xy) =~= coords@);
            }
            creatures.push(c);
            proof {
                assert(coords@ =~= old(coords)@ + creature_cells(creatures@));
            }
        }
        d += 1;
    }
    creatures
}

/// The outcome of one creature's move attempt against an occupancy list: the
/// proposal if no listed cell matches it, the current cell otherwise.
pub open spec fn step_cell(cur: (u32, u32), proposal: (u32, u32), occ: Seq<(u32, u32)>) -> (
    u32,
    u32,
) {
    if occ.contains(proposal) {
        cur
    } else {
        proposal
    }
}

/// The occupancy list creature `i` is tested against during a turn that
/// walks the creatures in order: creatures before `i` already stand on their
/// new cells, creature `i` and those after it still on their old ones.
pub open spec fn occ_at(prev: Seq<(u32, u32)>, cur: Seq<(u32, u32)>, i: int) -> Seq<(u32, u32)> {
    Seq::new(
        prev.len(),
        |j: int|
            if j < i {
                cur[j]
            } else {
                prev[j]
            },
    )
}

/// How one turn treats the creature at position `i` of the walk: appearance
/// and presentation state are untouched, and the new cell is the outcome of
/// some neighbour proposal tested against the occupancy list of that moment.
pub open spec fn creature_stepped(
    c0: Creature,
    c1: Creature,
    prev: Seq<(u32, u32)>,
    cur: Seq<(u32, u32)>,
    i: int,
) -> bool {
    &&& c1.img == c0.img
    &&& c1.initialized == c0.initialized
    &&& c1.entity == c0.entity
    &&& exists|k: int|
        0 <= k < 8 && (c1.x, c1.y) == step_cell(
            (c0.x, c0.y),
            #[trigger] proposed_cell(c0.x, c0.y, k),
            occ_at(prev, cur, i),
        )
}

proof fn lemma_stepped_congruence(
    c0: Creature,
    c1: Creature,
    prev: Seq<(u32, u32)>,
    cur1: Seq<(u32, u32)>,
    cur2: Seq<(u32, u32)>,
    i: int,
)
    requires
        creature_stepped(c0, c1, prev, cur1, i),
        occ_at(prev, cur1, i) == occ_at(prev, cur2, i),
    ensures
        creature_stepped(c0, c1, prev, cur2, i),
{
    let k = choose|k: int|
        0 <= k < 8 && (c1.x, c1.y) == step_cell(
            (c0.x, c0.y),
            #[trigger] proposed_cell(c0.x, c0.y, k),
            occ_at(prev, cur1, i),
        );
    assert(0 <= k < 8 && (c1.x, c1.y) == step_cell(
        (c0.x, c0.y),
        proposed_cell(c0.x, c0.y, k),
        occ_at(prev, cur2, i),
    ));
}

/// A creature with every escape blocked stays put: when each of its eight
/// neighbour cells lies in the occupancy list, the turn leaves it on its
/// current cell, whichever neighbour it happened to propose.
pub proof fn lemma_surrounded_creature_stays(x: u32, y: u32, occ: Seq<(u32, u32)>, k: int)
    requires
        0 <= k < 8,
        forall|j: int| 0 <= j < 8 ==> occ.contains(#[trigger] neighbor_cell(x, y, j)),
    ensures
        step_cell((x, y), proposed_cell(x, y, k), occ) == (x, y),
{
    let p = proposed_cell(x, y, k);
    if p == (x, y) {
    } else {
        assert(p == neighbor_cell(x, y, k));
        assert(occ.contains(p));
    }
}

/// Applies one creature's move attempt to the occupancy list: slot `i` holds
/// the creature's current cell; an accepted move replaces it with the
/// proposal, a collision leaves the list and the creature in place.
pub fn step_creature(positions: &mut Vec<(u32, u32)>, i: usize, proposal: (u32, u32)) -> (r: (
    u32,
    u32,
))
    requires
        i < old(positions)@.len(),
    ensures
        r == step_cell(old(positions)@[i as int], proposal, old(positions)@),
        final(positions)@ == old(positions)@.update(i as int, r),
        distinct_cells(old(positions)@) ==> distinct_cells(final(positions)@),
{
    if contains_cell(positions, proposal) {
        let r = positions[i];
        proof {
            assert(final(positions)@ =~= old(positions)@.update(i as int, r));
        }
        r
    } else {
        let cur = positions.remove(i);
        positions.insert(i, proposal);
        proof {
            assert(final(positions)@ =~= old(positions)@.update(i as int, proposal));
            if distinct_cells(old(positions)@) {
                let upd = old(positions)@.update(i as int, proposal);
                assert forall|a: int, b: int| 0 <= a < b < upd.len() implies upd[a] != upd[b] by {
                    if a == i {
                        assert(upd[b] == old(positions)@[b]);
                        assert(old(positions)@.contains(old(positions)@[b]));
                    } else if b == i {
                        assert(upd[a] == old(positions)@[a]);
                        assert(old(positions)@.contains(old(positions)@[a]));
                    }
                }
            }
        }
        proposal
    }
}

/// The creature categories shared by every land biome.
fn land_creature_categories() -> (r: Vec<CreatureKind>)
    ensures
        r@ == seq![
            CreatureKind::Bobcat,
            CreatureKind::Pelican,
            CreatureKind::Skeleton,
            CreatureKind::Slime,
            CreatureKind::Wolf,
        ],
{
    let r = vec![
        CreatureKind::Bobcat,
        CreatureKind::Pelican,
        CreatureKind::Skeleton,
        CreatureKind::Slime,
        CreatureKind::Wolf,
    ];
    proof {
        assert(r@ =~= seq![
            CreatureKind::Bobcat,
            CreatureKind::Pelican,
            CreatureKind::Skeleton,
            CreatureKind::Slime,
            CreatureKind::Wolf,
        ]);
    }
    r
}

} // verus!
