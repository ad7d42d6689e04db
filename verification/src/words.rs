//! The three word tables from which referral codes are built, and the facts
//! about them that make codes unambiguous: each table is strictly ascending in
//! lexicographic order (so no word occurs twice), and no word holds the
//! separator character.
use vstd::prelude::*;

verus! {

/// Adjectives: the first part of a code.
pub const ADJECTIVES: [&'static str; 90] = [
    "able", "agile", "alert", "ample", "arctic", "awake", "bold", "brave", "breezy", "bright",
    "brisk", "calm", "candid", "cheerful", "clever", "cosmic", "cozy", "crisp", "curious",
    "dapper", "daring", "eager", "earnest", "easy", "epic", "fair", "fancy", "fearless",
    "fierce", "fluffy", "fond", "frank", "free", "fresh", "friendly", "funny", "gentle",
    "giant", "glad", "gleaming", "golden", "graceful", "grand", "happy", "hardy", "hearty",
    "heroic", "honest", "humble", "jolly", "jovial", "keen", "kind", "lively", "loyal", "lucky",
    "magic", "merry", "mighty", "modest", "nimble", "noble", "patient", "peaceful", "plucky",
    "polite", "proud", "quick", "quiet", "radiant", "rapid", "ready", "regal", "robust",
    "rustic", "shiny", "silent", "sleek", "smart", "snappy", "solid", "speedy", "steady",
    "sturdy", "sunny", "swift", "trusty", "vivid", "witty", "zesty",
];

/// Colors: the second part of a code.
pub const COLORS: [&'static str; 147] = [
    "aliceblue", "antiquewhite", "aqua", "aquamarine", "azure", "beige", "bisque", "black",
    "blanchedalmond", "blue", "blueviolet", "brown", "burlywood", "cadetblue", "chartreuse",
    "chocolate", "coral", "cornflowerblue", "cornsilk", "crimson", "cyan", "darkblue",
    "darkcyan", "darkgoldenrod", "darkgray", "darkgreen", "darkgrey", "darkkhaki",
    "darkmagenta", "darkolivegreen", "darkorange", "darkorchid", "darkred", "darksalmon",
    "darkseagreen", "darkslateblue", "darkslategray", "darkslategrey", "darkturquoise",
    "darkviolet", "deeppink", "deepskyblue", "dimgray", "dimgrey", "dodgerblue", "firebrick",
    "floralwhite", "forestgreen", "fuchsia", "gainsboro", "ghostwhite", "gold", "goldenrod",
    "gray", "green", "greenyellow", "grey", "honeydew", "hotpink", "indianred", "indigo",
    "ivory", "khaki", "lavender", "lavenderblush", "lawngreen", "lemonchiffon", "lightblue",
    "lightcoral", "lightcyan", "lightgoldenrodyellow", "lightgray", "lightgreen", "lightgrey",
    "lightpink", "lightsalmon", "lightseagreen", "lightskyblue", "lightslategray",
    "lightslategrey", "lightsteelblue", "lightyellow", "lime", "limegreen", "linen", "magenta",
    "maroon", "mediumaquamarine", "mediumblue", "mediumorchid", "mediumpurple",
    "mediumseagreen", "mediumslateblue", "mediumspringgreen", "mediumturquoise",
    "mediumvioletred", "midnightblue", "mintcream", "mistyrose", "moccasin", "navajowhite",
    "navy", "oldlace", "olive", "olivedrab", "orange", "orangered", "orchid", "palegoldenrod",
    "palegreen", "paleturquoise", "palevioletred", "papayawhip", "peachpuff", "peru", "pink",
    "plum", "powderblue", "purple", "red", "rosybrown", "royalblue", "saddlebrown", "salmon",
    "sandybrown", "seagreen", "seashell", "sienna", "silver", "skyblue", "slateblue",
    "slategray", "slategrey", "snow", "springgreen", "steelblue", "tan", "teal", "thistle",
    "tomato", "turquoise", "violet", "wheat", "white", "whitesmoke", "yellow", "yellowgreen",
];

/// Animals: the third part of a code.
pub const ANIMALS: [&'static str; 223] = [
    "aardvark", "albatross", "alligator", "alpaca", "anaconda", "angelfish", "ant", "anteater",
    "antelope", "armadillo", "axolotl", "baboon", "badger", "barracuda", "bat", "bear",
    "beaver", "bee", "beetle", "bison", "blackbird", "bluejay", "boar", "bobcat", "buffalo",
    "bull", "butterfly", "buzzard", "camel", "canary", "capybara", "caribou", "carp", "cat",
    "caterpillar", "catfish", "centipede", "chameleon", "cheetah", "chickadee", "chicken",
    "chimpanzee", "chinchilla", "chipmunk", "cobra", "cockatoo", "condor", "cormorant",
    "cougar", "cow", "coyote", "crab", "crane", "cricket", "crocodile", "crow", "cuckoo",
    "dingo", "dolphin", "donkey", "dove", "dragonfly", "duck", "dugong", "eagle", "eel",
    "egret", "elephant", "elk", "emu", "falcon", "ferret", "finch", "firefly", "flamingo",
    "flounder", "fox", "frog", "gazelle", "gecko", "gerbil", "gibbon", "giraffe", "goat",
    "goldfinch", "goose", "gopher", "gorilla", "grasshopper", "grouse", "gull", "hamster",
    "hare", "hawk", "hedgehog", "heron", "hippo", "hornet", "horse", "hummingbird", "hyena",
    "ibex", "ibis", "iguana", "impala", "jackal", "jaguar", "jellyfish", "kangaroo",
    "kingfisher", "kiwi", "koala", "kookaburra", "ladybug", "lemming", "lemur", "leopard",
    "lion", "lizard", "llama", "lobster", "loon", "lynx", "macaw", "magpie", "manatee",
    "mandrill", "mantis", "marmot", "meerkat", "mink", "mole", "mongoose", "monkey", "moose",
    "mosquito", "moth", "mouse", "narwhal", "newt", "nightingale", "ocelot", "octopus", "okapi",
    "opossum", "orca", "oriole", "ostrich", "otter", "owl", "ox", "oyster", "panda", "panther",
    "parrot", "partridge", "peacock", "pelican", "penguin", "pheasant", "pig", "pigeon",
    "piranha", "platypus", "pony", "porcupine", "porpoise", "possum", "puffin", "puma",
    "python", "quail", "rabbit", "raccoon", "rat", "raven", "reindeer", "rhino", "roadrunner",
    "robin", "salamander", "salmon", "scorpion", "seahorse", "seal", "shark", "sheep", "shrimp",
    "skunk", "sloth", "snail", "snake", "sparrow", "spider", "squid", "squirrel", "starfish",
    "stingray", "stork", "swallow", "swan", "tapir", "tarantula", "tiger", "toad", "tortoise",
    "toucan", "trout", "turkey", "turtle", "viper", "vulture", "wallaby", "walrus", "wasp",
    "weasel", "whale", "wolf", "wolverine", "wombat", "woodpecker", "yak", "zebra",
];

/// The character that separates the parts of a code.
pub open spec fn separator() -> char {
    '-'
}

/// `a` comes strictly before `b` in lexicographic order, and `k` is the first
/// position at which they differ (or `k == a.len()` when `a` is a proper
/// prefix of `b`).
pub open spec fn precedes_at(a: Seq<char>, b: Seq<char>, k: int) -> bool {
    &&& 0 <= k <= a.len()
    &&& k < b.len()
    &&& forall|j: int| 0 <= j < k ==> a[j] == b[j]
    &&& (k == a.len() || (a[k] as int) < (b[k] as int))
}

/// `a` comes strictly before `b` in lexicographic order.
pub open spec fn lex_less(a: Seq<char>, b: Seq<char>) -> bool {
    exists|k: int| #[trigger] precedes_at(a, b, k)
}

/// No character of `w` is the separator.
pub open spec fn free_of_separator(w: Seq<char>) -> bool {
    forall|k: int| 0 <= k < w.len() ==> w[k] != separator()
}

/// Every word of the table is non-empty and free of the separator, and the
/// table is strictly ascending.
pub open spec fn well_formed_table(t: Seq<Seq<char>>) -> bool {
    &&& forall|i: int| 0 <= i < t.len() ==> free_of_separator(#[trigger] t[i])
    &&& forall|i: int| 0 <= i < t.len() ==> #[trigger] t[i].len() > 0
    &&& forall|i: int, j: int| 0 <= i < j < t.len() ==> lex_less(#[trigger] t[i], #[trigger] t[j])
}

/// The adjective table as character sequences.
pub open spec fn adjective_words() -> Seq<Seq<char>> {
    ADJECTIVES@.map_values(|w: &str| w@)
}

/// The color table as character sequences.
pub open spec fn color_words() -> Seq<Seq<char>> {
    COLORS@.map_values(|w: &str| w@)
}

/// The animal table as character sequences.
pub open spec fn animal_words() -> Seq<Seq<char>> {
    ANIMALS@.map_values(|w: &str| w@)
}

proof fn lemma_precedes_transitive(a: Seq<char>, b: Seq<char>, c: Seq<char>, k1: int, k2: int)
    requires
        precedes_at(a, b, k1),
        precedes_at(b, c, k2),
    ensures
        precedes_at(a, c, if k1 <= k2 { k1 } else { k2 }),
{
}

proof fn lemma_precedes_distinct(a: Seq<char>, b: Seq<char>, k: int)
    requires
        precedes_at(a, b, k),
    ensures
        a != b,
{
    if a == b {
        assert(a[k] == b[k]);
    }
}

/// A table whose neighbours are in strict lexicographic order is strictly
/// ascending throughout.
proof fn lemma_ascending_from_neighbours(t: Seq<Seq<char>>, gap: spec_fn(int) -> int)
    requires
        forall|i: int| 0 <= i < t.len() - 1 ==> precedes_at(#[trigger] t[i], t[i + 1], gap(i)),
    ensures
        forall|i: int, j: int| 0 <= i < j < t.len() ==> lex_less(#[trigger] t[i], #[trigger] t[j]),
{
    assert forall|i: int, j: int| 0 <= i < j < t.len() implies lex_less(
        #[trigger] t[i],
        #[trigger] t[j],
    ) by {
        lemma_ascending_span(t, gap, i, j);
    }
}

proof fn lemma_ascending_span(t: Seq<Seq<char>>, gap: spec_fn(int) -> int, i: int, j: int)
    requires
        forall|i: int| 0 <= i < t.len() - 1 ==> precedes_at(#[trigger] t[i], t[i + 1], gap(i)),
        0 <= i < j < t.len(),
    ensures
        lex_less(t[i], t[j]),
    decreases j - i,
{
    if j == i + 1 {
        assert(precedes_at(t[i], t[j], gap(i)));
    } else {
        lemma_ascending_span(t, gap, i, j - 1);
        let k1 = choose|k: int| #[trigger] precedes_at(t[i], t[j - 1], k);
        assert(precedes_at(t[j - 1], t[j], gap(j - 1)));
        lemma_precedes_transitive(t[i], t[j - 1], t[j], k1, gap(j - 1));
    }
}

/// Two distinct positions of a well-formed table hold different words.
pub proof fn lemma_table_entries_distinct(t: Seq<Seq<char>>, i: int, j: int)
    requires
        well_formed_table(t),
        0 <= i < t.len(),
        0 <= j < t.len(),
        i != j,
    ensures
        t[i] != t[j],
{
    if i < j {
        assert(lex_less(t[i], t[j]));
        let k = choose|k: int| #[trigger] precedes_at(t[i], t[j], k);
        lemma_precedes_distinct(t[i], t[j], k);
    } else {
        assert(lex_less(t[j], t[i]));
        let k = choose|k: int| #[trigger] precedes_at(t[j], t[i], k);
        lemma_precedes_distinct(t[j], t[i], k);
    }
}

/// The first position at which the adjectives at positions `i` and `i + 1`
/// differ.
spec fn adjective_gap(i: int) -> int {
    if i == 5 || i == 10 || i == 18 || i == 20 || i == 24 || i == 35 || i == 42 || i == 48
        || i == 50 || i == 52 || i == 55 || i == 59 || i == 61 || i == 66 || i == 68 || i == 74
        || i == 85 || i == 86 || i == 87 || i == 88 {
        0
    } else if i == 7 || i == 8 || i == 11 || i == 15 || i == 19 || i == 21 || i == 22 || i == 25
        || i == 31 || i == 33 || i == 38 || i == 43 || i == 45 || i == 49 || i == 69 || i == 71
        || i == 82 {
        2
    } else if i == 9 || i == 32 || i == 41 || i == 67 {
        3
    } else {
        1
    }
}

proof fn lemma_adjectives_well_formed_entries()
    ensures
        ADJECTIVES@.len() == 90,
        forall|i: int|
            0 <= i < 89 ==> precedes_at(#[trigger] ADJECTIVES@[i]@, ADJECTIVES@[i + 1]@, adjective_gap(i)),
        forall|i: int| 0 <= i < 90 ==> #[trigger] ADJECTIVES@[i]@.len() > 0,
        forall|i: int, k: int|
            0 <= i < 90 && 0 <= k < ADJECTIVES@[i]@.len() ==> #[trigger] ADJECTIVES@[i]@[k] != separator(),
{
    reveal_strlit("able");
    reveal_strlit("agile");
    reveal_strlit("alert");
    reveal_strlit("ample");
    reveal_strlit("arctic");
    reveal_strlit("awake");
    reveal_strlit("bold");
    reveal_strlit("brave");
    reveal_strlit("breezy");
    reveal_strlit("bright");
    reveal_strlit("brisk");
    reveal_strlit("calm");
    reveal_strlit("candid");
    reveal_strlit("cheerful");
    reveal_strlit("clever");
    reveal_strlit("cosmic");
    reveal_strlit("cozy");
    reveal_strlit("crisp");
    reveal_strlit("curious");
    reveal_strlit("dapper");
    reveal_strlit("daring");
    reveal_strlit("eager");
    reveal_strlit("earnest");
    reveal_strlit("easy");
    reveal_strlit("epic");
    reveal_strlit("fair");
    reveal_strlit("fancy");
    reveal_strlit("fearless");
    reveal_strlit("fierce");
    reveal_strlit("fluffy");
    reveal_strlit("fond");
    reveal_strlit("frank");
    reveal_strlit("free");
    reveal_strlit("fresh");
    reveal_strlit("friendly");
    reveal_strlit("funny");
    reveal_strlit("gentle");
    reveal_strlit("giant");
    reveal_strlit("glad");
    reveal_strlit("gleaming");
    reveal_strlit("golden");
    reveal_strlit("graceful");
    reveal_strlit("grand");
    reveal_strlit("happy");
    reveal_strlit("hardy");
    reveal_strlit("hearty");
    reveal_strlit("heroic");
    reveal_strlit("honest");
    reveal_strlit("humble");
    reveal_strlit("jolly");
    reveal_strlit("jovial");
    reveal_strlit("keen");
    reveal_strlit("kind");
    reveal_strlit("lively");
    reveal_strlit("loyal");
    reveal_strlit("lucky");
    reveal_strlit("magic");
    reveal_strlit("merry");
    reveal_strlit("mighty");
    reveal_strlit("modest");
    reveal_strlit("nimble");
    reveal_strlit("noble");
    reveal_strlit("patient");
    reveal_strlit("peaceful");
    reveal_strlit("plucky");
    reveal_strlit("polite");
    reveal_strlit("proud");
    reveal_strlit("quick");
    reveal_strlit("quiet");
    reveal_strlit("radiant");
    reveal_strlit("rapid");
    reveal_strlit("ready");
    reveal_strlit("regal");
    reveal_strlit("robust");
    reveal_strlit("rustic");
    reveal_strlit("shiny");
    reveal_strlit("silent");
    reveal_strlit("sleek");
    reveal_strlit("smart");
    reveal_strlit("snappy");
    reveal_strlit("solid");
    reveal_strlit("speedy");
    reveal_strlit("steady");
    reveal_strlit("sturdy");
    reveal_strlit("sunny");
    reveal_strlit("swift");
    reveal_strlit("trusty");
    reveal_strlit("vivid");
    reveal_strlit("witty");
    reveal_strlit("zesty");
}

/// The adjectives table is well formed: ascending, non-empty words, no separator.
pub proof fn lemma_adjectives_well_formed()
    ensures
        well_formed_table(adjective_words()),
        adjective_words().len() == 90,
{
    lemma_adjectives_well_formed_entries();
    let t = adjective_words();
    assert forall|i: int| 0 <= i < t.len() - 1 implies precedes_at(
        #[trigger] t[i],
        t[i + 1],
        adjective_gap(i),
    ) by {
        assert(t[i] == ADJECTIVES@[i]@);
        assert(t[i + 1] == ADJECTIVES@[i + 1]@);
    }
    assert forall|i: int| 0 <= i < t.len() implies free_of_separator(#[trigger] t[i]) && t[i].len()
        > 0 by {
        assert(t[i] == ADJECTIVES@[i]@);
    }
    lemma_ascending_from_neighbours(t, |i: int| adjective_gap(i));
}

/// The first position at which the colors at positions `i` and `i + 1`
/// differ.
spec fn color_gap(i: int) -> int {
    if i == 4 || i == 12 || i == 20 || i == 44 || i == 48 || i == 56 || i == 58 || i == 61
        || i == 62 || i == 84 || i == 99 || i == 101 || i == 107 || i == 118 || i == 121
        || i == 135 || i == 140 || i == 141 || i == 144 {
        0
    } else if i == 8 || i == 14 || i == 53 || i == 57 || i == 64 || i == 81 || i == 83
        || i == 85 || i == 96 || i == 97 || i == 102 || i == 106 || i == 111 || i == 113
        || i == 120 || i == 122 || i == 123 || i == 127 || i == 142 {
        2
    } else if i == 2 || i == 9 || i == 17 || i == 21 || i == 22 || i == 26 || i == 27 || i == 28
        || i == 31 || i == 32 || i == 37 || i == 38 || i == 40 || i == 51 || i == 59 || i == 82
        || i == 109 || i == 110 {
        4
    } else if i == 24 || i == 30 || i == 68 || i == 70 || i == 75 || i == 76 || i == 77
        || i == 79 || i == 87 || i == 88 || i == 89 || i == 90 || i == 93 || i == 94 || i == 105
        || i == 145 {
        6
    } else if i == 23 || i == 29 || i == 33 || i == 34 || i == 42 || i == 54 || i == 67
        || i == 69 || i == 73 || i == 74 || i == 80 || i == 103 || i == 108 || i == 130
        || i == 143 {
        5
    } else if i == 7 || i == 16 || i == 55 || i == 100 || i == 125 {
        3
    } else if i == 25 || i == 71 || i == 91 || i == 92 || i == 131 {
        7
    } else if i == 63 || i == 72 {
        8
    } else if i == 35 {
        9
    } else if i == 36 {
        11
    } else if i == 78 {
        12
    } else {
        1
    }
}

proof fn lemma_colors_well_formed_entries()
    ensures
        COLORS@.len() == 147,
        forall|i: int|
            0 <= i < 146 ==> precedes_at(#[trigger] COLORS@[i]@, COLORS@[i + 1]@, color_gap(i)),
        forall|i: int| 0 <= i < 147 ==> #[trigger] COLORS@[i]@.len() > 0,
        forall|i: int, k: int|
            0 <= i < 147 && 0 <= k < COLORS@[i]@.len() ==> #[trigger] COLORS@[i]@[k] != separator(),
{
    reveal_strlit("aliceblue");
    reveal_strlit("antiquewhite");
    reveal_strlit("aqua");
    reveal_strlit("aquamarine");
    reveal_strlit("azure");
    reveal_strlit("beige");
    reveal_strlit("bisque");
    reveal_strlit("black");
    reveal_strlit("blanchedalmond");
    reveal_strlit("blue");
    reveal_strlit("blueviolet");
    reveal_strlit("brown");
    reveal_strlit("burlywood");
    reveal_strlit("cadetblue");
    reveal_strlit("chartreuse");
    reveal_strlit("chocolate");
    reveal_strlit("coral");
    reveal_strlit("cornflowerblue");
    reveal_strlit("cornsilk");
    reveal_strlit("crimson");
    reveal_strlit("cyan");
    reveal_strlit("darkblue");
    reveal_strlit("darkcyan");
    reveal_strlit("darkgoldenrod");
    reveal_strlit("darkgray");
    reveal_strlit("darkgreen");
    reveal_strlit("darkgrey");
    reveal_strlit("darkkhaki");
    reveal_strlit("darkmagenta");
    reveal_strlit("darkolivegreen");
    reveal_strlit("darkorange");
    reveal_strlit("darkorchid");
    reveal_strlit("darkred");
    reveal_strlit("darksalmon");
    reveal_strlit("darkseagreen");
    reveal_strlit("darkslateblue");
    reveal_strlit("darkslategray");
    reveal_strlit("darkslategrey");
    reveal_strlit("darkturquoise");
    reveal_strlit("darkviolet");
    reveal_strlit("deeppink");
    reveal_strlit("deepskyblue");
    reveal_strlit("dimgray");
    reveal_strlit("dimgrey");
    reveal_strlit("dodgerblue");
    reveal_strlit("firebrick");
    reveal_strlit("floralwhite");
    reveal_strlit("forestgreen");
    reveal_strlit("fuchsia");
    reveal_strlit("gainsboro");
    reveal_strlit("ghostwhite");
    reveal_strlit("gold");
    reveal_strlit("goldenrod");
    reveal_strlit("gray");
    reveal_strlit("green");
    reveal_strlit("greenyellow");
    reveal_strlit("grey");
    reveal_strlit("honeydew");
    reveal_strlit("hotpink");
    reveal_strlit("indianred");
    reveal_strlit("indigo");
    reveal_strlit("ivory");
    reveal_strlit("khaki");
    reveal_strlit("lavender");
    reveal_strlit("lavenderblush");
    reveal_strlit("lawngreen");
    reveal_strlit("lemonchiffon");
    reveal_strlit("lightblue");
    reveal_strlit("lightcoral");
    reveal_strlit("lightcyan");
    reveal_strlit("lightgoldenrodyellow");
    reveal_strlit("lightgray");
    reveal_strlit("lightgreen");
    reveal_strlit("lightgrey");
    reveal_strlit("lightpink");
    reveal_strlit("lightsalmon");
    reveal_strlit("lightseagreen");
    reveal_strlit("lightskyblue");
    reveal_strlit("lightslategray");
    reveal_strlit("lightslategrey");
    reveal_strlit("lightsteelblue");
    reveal_strlit("lightyellow");
    reveal_strlit("lime");
    reveal_strlit("limegreen");
    reveal_strlit("linen");
    reveal_strlit("magenta");
    reveal_strlit("maroon");
    reveal_strlit("mediumaquamarine");
    reveal_strlit("mediumblue");
    reveal_strlit("mediumorchid");
    reveal_strlit("mediumpurple");
    reveal_strlit("mediumseagreen");
    reveal_strlit("mediumslateblue");
    reveal_strlit("mediumspringgreen");
    reveal_strlit("mediumturquoise");
    reveal_strlit("mediumvioletred");
    reveal_strlit("midnightblue");
    reveal_strlit("mintcream");
    reveal_strlit("mistyrose");
    reveal_strlit("moccasin");
    reveal_strlit("navajowhite");
    reveal_strlit("navy");
    reveal_strlit("oldlace");
    reveal_strlit("olive");
    reveal_strlit("olivedrab");
    reveal_strlit("orange");
    reveal_strlit("orangered");
    reveal_strlit("orchid");
    reveal_strlit("palegoldenrod");
    reveal_strlit("palegreen");
    reveal_strlit("paleturquoise");
    reveal_strlit("palevioletred");
    reveal_strlit("papayawhip");
    reveal_strlit("peachpuff");
    reveal_strlit("peru");
    reveal_strlit("pink");
    reveal_strlit("plum");
    reveal_strlit("powderblue");
    reveal_strlit("purple");
    reveal_strlit("red");
    reveal_strlit("rosybrown");
    reveal_strlit("royalblue");
    reveal_strlit("saddlebrown");
    reveal_strlit("salmon");
    reveal_strlit("sandybrown");
    reveal_strlit("seagreen");
    reveal_strlit("seashell");
    reveal_strlit("sienna");
    reveal_strlit("silver");
    reveal_strlit("skyblue");
    reveal_strlit("slateblue");
    reveal_strlit("slategray");
    reveal_strlit("slategrey");
    reveal_strlit("snow");
    reveal_strlit("springgreen");
    reveal_strlit("steelblue");
    reveal_strlit("tan");
    reveal_strlit("teal");
    reveal_strlit("thistle");
    reveal_strlit("tomato");
    reveal_strlit("turquoise");
    reveal_strlit("violet");
    reveal_strlit("wheat");
    reveal_strlit("white");
    reveal_strlit("whitesmoke");
    reveal_strlit("yellow");
    reveal_strlit("yellowgreen");
}

/// The colors table is well formed: ascending, non-empty words, no separator.
pub proof fn lemma_colors_well_formed()
    ensures
        well_formed_table(color_words()),
        color_words().len() == 147,
{
    lemma_colors_well_formed_entries();
    let t = color_words();
    assert forall|i: int| 0 <= i < t.len() - 1 implies precedes_at(
        #[trigger] t[i],
        t[i + 1],
        color_gap(i),
    ) by {
        assert(t[i] == COLORS@[i]@);
        assert(t[i + 1] == COLORS@[i + 1]@);
    }
    assert forall|i: int| 0 <= i < t.len() implies free_of_separator(#[trigger] t[i]) && t[i].len()
        > 0 by {
        assert(t[i] == COLORS@[i]@);
    }
    lemma_ascending_from_neighbours(t, |i: int| color_gap(i));
}

/// The first position at which the animals at positions `i` and `i + 1`
/// differ.
spec fn animal_gap(i: int) -> int {
    if i == 1 || i == 2 || i == 4 || i == 5 || i == 11 || i == 12 || i == 13 || i == 16
        || i == 20 || i == 22 || i == 24 || i == 25 || i == 26 || i == 28 || i == 29 || i == 30
        || i == 32 || i == 37 || i == 38 || i == 44 || i == 45 || i == 46 || i == 47 || i == 48
        || i == 49 || i == 52 || i == 53 || i == 58 || i == 59 || i == 62 || i == 67 || i == 72
        || i == 74 || i == 79 || i == 81 || i == 83 || i == 84 || i == 85 || i == 86 || i == 88
        || i == 91 || i == 92 || i == 94 || i == 101 || i == 105 || i == 109 || i == 111
        || i == 115 || i == 117 || i == 120 || i == 123 || i == 124 || i == 127 || i == 131
        || i == 133 || i == 134 || i == 135 || i == 136 || i == 141 || i == 145 || i == 153
        || i == 156 || i == 157 || i == 161 || i == 164 || i == 166 || i == 168 || i == 172
        || i == 173 || i == 174 || i == 178 || i == 185 || i == 186 || i == 192 || i == 196
        || i == 197 || i == 201 || i == 204 || i == 205 || i == 213 || i == 218 || i == 219 {
        2
    } else if i == 6 || i == 15 || i == 17 || i == 31 || i == 33 || i == 34 || i == 40
        || i == 41 || i == 42 || i == 51 || i == 54 || i == 97 || i == 114 || i == 125
        || i == 126 || i == 132 || i == 152 || i == 154 || i == 160 || i == 165 || i == 180
        || i == 183 || i == 190 || i == 199 || i == 208 || i == 212 || i == 217 {
        3
    } else if i == 10 || i == 27 || i == 56 || i == 63 || i == 69 || i == 77 || i == 90
        || i == 100 || i == 104 || i == 107 || i == 112 || i == 122 || i == 137 || i == 140
        || i == 151 || i == 170 || i == 171 || i == 179 || i == 200 || i == 209 || i == 211
        || i == 220 || i == 221 {
        0
    } else if i == 7 || i == 194 {
        4
    } else if i == 39 {
        5
    } else {
        1
    }
}

proof fn lemma_animals_well_formed_entries()
    ensures
        ANIMALS@.len() == 223,
        forall|i: int|
            0 <= i < 222 ==> precedes_at(#[trigger] ANIMALS@[i]@, ANIMALS@[i + 1]@, animal_gap(i)),
        forall|i: int| 0 <= i < 223 ==> #[trigger] ANIMALS@[i]@.len() > 0,
        forall|i: int, k: int|
            0 <= i < 223 && 0 <= k < ANIMALS@[i]@.len() ==> #[trigger] ANIMALS@[i]@[k] != separator(),
{
    reveal_strlit("aardvark");
    reveal_strlit("albatross");
    reveal_strlit("alligator");
    reveal_strlit("alpaca");
    reveal_strlit("anaconda");
    reveal_strlit("angelfish");
    reveal_strlit("ant");
    reveal_strlit("anteater");
    reveal_strlit("antelope");
    reveal_strlit("armadillo");
    reveal_strlit("axolotl");
    reveal_strlit("baboon");
    reveal_strlit("badger");
    reveal_strlit("barracuda");
    reveal_strlit("bat");
    reveal_strlit("bear");
    reveal_strlit("beaver");
    reveal_strlit("bee");
    reveal_strlit("beetle");
    reveal_strlit("bison");
    reveal_strlit("blackbird");
    reveal_strlit("bluejay");
    reveal_strlit("boar");
    reveal_strlit("bobcat");
    reveal_strlit("buffalo");
    reveal_strlit("bull");
    reveal_strlit("butterfly");
    reveal_strlit("buzzard");
    reveal_strlit("camel");
    reveal_strlit("canary");
    reveal_strlit("capybara");
    reveal_strlit("caribou");
    reveal_strlit("carp");
    reveal_strlit("cat");
    reveal_strlit("caterpillar");
    reveal_strlit("catfish");
    reveal_strlit("centipede");
    reveal_strlit("chameleon");
    reveal_strlit("cheetah");
    reveal_strlit("chickadee");
    reveal_strlit("chicken");
    reveal_strlit("chimpanzee");
    reveal_strlit("chinchilla");
    reveal_strlit("chipmunk");
    reveal_strlit("cobra");
    reveal_strlit("cockatoo");
    reveal_strlit("condor");
    reveal_strlit("cormorant");
    reveal_strlit("cougar");
    reveal_strlit("cow");
    reveal_strlit("coyote");
    reveal_strlit("crab");
    reveal_strlit("crane");
    reveal_strlit("cricket");
    reveal_strlit("crocodile");
    reveal_strlit("crow");
    reveal_strlit("cuckoo");
    reveal_strlit("dingo");
    reveal_strlit("dolphin");
    reveal_strlit("donkey");
    reveal_strlit("dove");
    reveal_strlit("dragonfly");
    reveal_strlit("duck");
    reveal_strlit("dugong");
    reveal_strlit("eagle");
    reveal_strlit("eel");
    reveal_strlit("egret");
    reveal_strlit("elephant");
    reveal_strlit("elk");
    reveal_strlit("emu");
    reveal_strlit("falcon");
    reveal_strlit("ferret");
    reveal_strlit("finch");
    reveal_strlit("firefly");
    reveal_strlit("flamingo");
    reveal_strlit("flounder");
    reveal_strlit("fox");
    reveal_strlit("frog");
    reveal_strlit("gazelle");
    reveal_strlit("gecko");
    reveal_strlit("gerbil");
    reveal_strlit("gibbon");
    reveal_strlit("giraffe");
    reveal_strlit("goat");
    reveal_strlit("goldfinch");
    reveal_strlit("goose");
    reveal_strlit("gopher");
    reveal_strlit("gorilla");
    reveal_strlit("grasshopper");
    reveal_strlit("grouse");
    reveal_strlit("gull");
    reveal_strlit("hamster");
    reveal_strlit("hare");
    reveal_strlit("hawk");
    reveal_strlit("hedgehog");
    reveal_strlit("heron");
    reveal_strlit("hippo");
    reveal_strlit("hornet");
    reveal_strlit("horse");
    reveal_strlit("hummingbird");
    reveal_strlit("hyena");
    reveal_strlit("ibex");
    reveal_strlit("ibis");
    reveal_strlit("iguana");
    reveal_strlit("impala");
    reveal_strlit("jackal");
    reveal_strlit("jaguar");
    reveal_strlit("jellyfish");
    reveal_strlit("kangaroo");
    reveal_strlit("kingfisher");
    reveal_strlit("kiwi");
    reveal_strlit("koala");
    reveal_strlit("kookaburra");
    reveal_strlit("ladybug");
    reveal_strlit("lemming");
    reveal_strlit("lemur");
    reveal_strlit("leopard");
    reveal_strlit("lion");
    reveal_strlit("lizard");
    reveal_strlit("llama");
    reveal_strlit("lobster");
    reveal_strlit("loon");
    reveal_strlit("lynx");
    reveal_strlit("macaw");
    reveal_strlit("magpie");
    reveal_strlit("manatee");
    reveal_strlit("mandrill");
    reveal_strlit("mantis");
    reveal_strlit("marmot");
    reveal_strlit("meerkat");
    reveal_strlit("mink");
    reveal_strlit("mole");
    reveal_strlit("mongoose");
    reveal_strlit("monkey");
    reveal_strlit("moose");
    reveal_strlit("mosquito");
    reveal_strlit("moth");
    reveal_strlit("mouse");
    reveal_strlit("narwhal");
    reveal_strlit("newt");
    reveal_strlit("nightingale");
    reveal_strlit("ocelot");
    reveal_strlit("octopus");
    reveal_strlit("okapi");
    reveal_strlit("opossum");
    reveal_strlit("orca");
    reveal_strlit("oriole");
    reveal_strlit("ostrich");
    reveal_strlit("otter");
    reveal_strlit("owl");
    reveal_strlit("ox");
    reveal_strlit("oyster");
    reveal_strlit("panda");
    reveal_strlit("panther");
    reveal_strlit("parrot");
    reveal_strlit("partridge");
    reveal_strlit("peacock");
    reveal_strlit("pelican");
    reveal_strlit("penguin");
    reveal_strlit("pheasant");
    reveal_strlit("pig");
    reveal_strlit("pigeon");
    reveal_strlit("piranha");
    reveal_strlit("platypus");
    reveal_strlit("pony");
    reveal_strlit("porcupine");
    reveal_strlit("porpoise");
    reveal_strlit("possum");
    reveal_strlit("puffin");
    reveal_strlit("puma");
    reveal_strlit("python");
    reveal_strlit("quail");
    reveal_strlit("rabbit");
    reveal_strlit("raccoon");
    reveal_strlit("rat");
    reveal_strlit("raven");
    reveal_strlit("reindeer");
    reveal_strlit("rhino");
    reveal_strlit("roadrunner");
    reveal_strlit("robin");
    reveal_strlit("salamander");
    reveal_strlit("salmon");
    reveal_strlit("scorpion");
    reveal_strlit("seahorse");
    reveal_strlit("seal");
    reveal_strlit("shark");
    reveal_strlit("sheep");
    reveal_strlit("shrimp");
    reveal_strlit("skunk");
    reveal_strlit("sloth");
    reveal_strlit("snail");
    reveal_strlit("snake");
    reveal_strlit("sparrow");
    reveal_strlit("spider");
    reveal_strlit("squid");
    reveal_strlit("squirrel");
    reveal_strlit("starfish");
    reveal_strlit("stingray");
    reveal_strlit("stork");
    reveal_strlit("swallow");
    reveal_strlit("swan");
    reveal_strlit("tapir");
    reveal_strlit("tarantula");
    reveal_strlit("tiger");
    reveal_strlit("toad");
    reveal_strlit("tortoise");
    reveal_strlit("toucan");
    reveal_strlit("trout");
    reveal_strlit("turkey");
    reveal_strlit("turtle");
    reveal_strlit("viper");
    reveal_strlit("vulture");
    reveal_strlit("wallaby");
    reveal_strlit("walrus");
    reveal_strlit("wasp");
    reveal_strlit("weasel");
    reveal_strlit("whale");
    reveal_strlit("wolf");
    reveal_strlit("wolverine");
    reveal_strlit("wombat");
    reveal_strlit("woodpecker");
    reveal_strlit("yak");
    reveal_strlit("zebra");
}

/// The animals table is well formed: ascending, non-empty words, no separator.
pub proof fn lemma_animals_well_formed()
    ensures
        well_formed_table(animal_words()),
        animal_words().len() == 223,
{
    lemma_animals_well_formed_entries();
    let t = animal_words();
    assert forall|i: int| 0 <= i < t.len() - 1 implies precedes_at(
        #[trigger] t[i],
        t[i + 1],
        animal_gap(i),
    ) by {
        assert(t[i] == ANIMALS@[i]@);
        assert(t[i + 1] == ANIMALS@[i + 1]@);
    }
    assert forall|i: int| 0 <= i < t.len() implies free_of_separator(#[trigger] t[i]) && t[i].len()
        > 0 by {
        assert(t[i] == ANIMALS@[i]@);
    }
    lemma_ascending_from_neighbours(t, |i: int| animal_gap(i));
}

} // verus!
