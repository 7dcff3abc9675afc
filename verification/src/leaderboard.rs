use vstd::prelude::*;
use vstd::string::StringSliceAdditionalSpecFns;

verus! {

/// Number of entries that the game-over screen always lists from the top.
pub const TOP_ROWS: usize = 5;

/// Number of entries that the leaderboard screen lists.
pub const SCREEN_ROWS: usize = 10;

/// Longest prefix of a name, in bytes, that a leaderboard row prints.
pub const ROW_NAME_BYTES: usize = 12;

/// One line of the leaderboard: a player name and a score.
pub struct LeaderboardEntry {
    pub name: String,
    pub score: u32,
}

impl LeaderboardEntry {
    /// Builds an entry.
    pub fn new(name: String, score: u32) -> (e: Self)
        ensures
            e.name == name,
            e.score == score,
    {
        LeaderboardEntry { name, score }
    }

    /// A copy of the entry.
    pub fn duplicate(&self) -> (e: Self)
        ensures
            e == *self,
    {
        LeaderboardEntry { name: self.name.clone(), score: self.score }
    }
}

/// A copy of a list of entries, in the same order.
pub fn duplicate_entries(entries: &Vec<LeaderboardEntry>) -> (r: Vec<LeaderboardEntry>)
    ensures
        r@ == entries@,
{
    let mut r: Vec<LeaderboardEntry> = Vec::new();
    let n: usize = entries.len();
    for i in 0..n
        invariant
            n == entries@.len(),
            r@ == entries@.take(i as int),
    {
        r.push(entries[i].duplicate());
        assert(entries@.take(i + 1) == entries@.take(i as int).push(entries@[i as int]));
    }
    assert(entries@.take(n as int) == entries@);
    r
}

/// Entry `e` is the player's own result: same name and same score.
pub open spec fn is_players_entry(e: LeaderboardEntry, name: Seq<char>, score: u32) -> bool {
    e.name@ == name && e.score == score
}

/// The player's rank (zero-based) in `entries`: the first entry with the player's name
/// and score; failing that, the first entry whose score the player equals or beats;
/// failing that, one past the last entry.
pub open spec fn rank_of(entries: Seq<LeaderboardEntry>, name: Seq<char>, score: u32, r: int) -> bool {
    &&& 0 <= r <= entries.len()
    &&& if exists|i: int| 0 <= i < entries.len() && is_players_entry(#[trigger] entries[i], name, score) {
        &&& r < entries.len()
        &&& is_players_entry(entries[r], name, score)
        &&& forall|j: int| 0 <= j < r ==> !is_players_entry(#[trigger] entries[j], name, score)
    } else {
        &&& r < entries.len() ==> entries[r].score <= score
        &&& forall|j: int| 0 <= j < r ==> #[trigger] entries[j].score > score
    }
}

/// Finds where the player's finished round stands in `entries` (see [`rank_of`]).
pub fn player_rank(entries: &Vec<LeaderboardEntry>, name: &String, score: u32) -> (r: usize)
    ensures
        rank_of(entries@, name@, score, r as int),
{
    let n: usize = entries.len();
    let mut i: usize = 0;
    while i < n
        invariant
            n == entries@.len(),
            i <= n,
            forall|j: int| 0 <= j < i ==> !is_players_entry(#[trigger] entries@[j], name@, score),
        decreases n - i,
    {
        if entries[i].score == score && entries[i].name == *name {
            return i;
        }
        i = i + 1;
    }
    let mut k: usize = 0;
    while k < n
        invariant
            n == entries@.len(),
            k <= n,
            forall|j: int| 0 <= j < k ==> #[trigger] entries@[j].score > score,
            forall|j: int| 0 <= j < n ==> !is_players_entry(#[trigger] entries@[j], name@, score),
        decreases n - k,
    {
        if entries[k].score <= score {
            return k;
        }
        k = k + 1;
    }
    k
}

/// One line of the game-over leaderboard: which entry, and whether it is the player's.
#[derive(Clone, Copy, PartialEq, Eq, Structural, Debug)]
pub struct BoardRow {
    pub index: usize,
    pub is_player: bool,
}

/// What the game-over screen lists: the top entries, then (when the player ranks below
/// them) a separator and the entries around the player.
pub struct GameOverBoard {
    pub top: Vec<BoardRow>,
    pub separator: bool,
    pub context: Vec<BoardRow>,
}

/// The rows `from..to` of a board, marking the player's rank.
pub open spec fn rows(from: int, to: int, rank: int) -> Seq<BoardRow> {
    Seq::new(
        if from <= to { (to - from) as nat } else { 0 },
        |k: int| BoardRow { index: (from + k) as usize, is_player: from + k == rank },
    )
}

/// Smaller of two integers.
pub open spec fn min_int(a: int, b: int) -> int {
    if a <= b { a } else { b }
}

/// Larger of two integers.
pub open spec fn max_int(a: int, b: int) -> int {
    if a >= b { a } else { b }
}

/// The game-over listing for a leaderboard of `len` entries and a player at `rank`:
/// the first five entries; and, when the player is ranked past them but inside the
/// list, a separator and the entries from two above to two below the player that are
/// not among the first five.
pub open spec fn board_layout(len: int, rank: int, b: GameOverBoard) -> bool {
    &&& b.top@ == rows(0, min_int(TOP_ROWS as int, len), rank)
    &&& b.separator == (rank >= TOP_ROWS && rank < len)
    &&& b.context@ == if b.separator {
        rows(max_int(rank - 2, TOP_ROWS as int), min_int(rank + 3, len), rank)
    } else {
        Seq::empty()
    }
}

fn push_rows(v: &mut Vec<BoardRow>, from: usize, to: usize, rank: usize)
    requires
        from <= to,
    ensures
        final(v)@ == old(v)@ + rows(from as int, to as int, rank as int),
{
    let ghost start = v@;
    let mut i: usize = from;
    while i < to
        invariant
            from <= i <= to,
            v@ == start + rows(from as int, i as int, rank as int),
        decreases to - i,
    {
        v.push(BoardRow { index: i, is_player: i == rank });
        assert(rows(from as int, (i + 1) as int, rank as int)
            == rows(from as int, i as int, rank as int).push(BoardRow { index: i, is_player: i == rank }));
        i = i + 1;
    }
}

/// Lays out the game-over leaderboard (see [`board_layout`]).
pub fn game_over_board(len: usize, rank: usize) -> (b: GameOverBoard)
    requires
        len <= usize::MAX - 3,
    ensures
        board_layout(len as int, rank as int, b),
{
    let mut top: Vec<BoardRow> = Vec::new();
    let top_end: usize = if len < TOP_ROWS { len } else { TOP_ROWS };
    push_rows(&mut top, 0, top_end, rank);
    let separator = rank >= TOP_ROWS && rank < len;
    let mut context: Vec<BoardRow> = Vec::new();
    if separator {
        let start: usize = if rank >= 2 { rank - 2 } else { 0 };
        let from: usize = if start < TOP_ROWS { TOP_ROWS } else { start };
        let end: usize = if rank + 3 < len { rank + 3 } else { len };
        if from <= end {
            push_rows(&mut context, from, end, rank);
        }
    }
    GameOverBoard { top, separator, context }
}

/// Every listed row names an entry of the list, the player's row is marked and no other,
/// and no entry is listed twice: the rows around the player come after the top ones,
/// in increasing order.
pub proof fn lemma_board_rows_are_sound(len: int, rank: int, b: GameOverBoard)
    requires
        0 <= len <= usize::MAX,
        0 <= rank <= usize::MAX,
        board_layout(len, rank, b),
    ensures
        forall|k: int| 0 <= k < b.top@.len() ==> (#[trigger] b.top@[k]).index < len,
        forall|k: int| 0 <= k < b.context@.len() ==> (#[trigger] b.context@[k]).index < len,
        forall|k: int| 0 <= k < b.top@.len() ==> ((#[trigger] b.top@[k]).is_player <==> b.top@[k].index == rank),
        forall|k: int| 0 <= k < b.context@.len() ==> ((#[trigger] b.context@[k]).is_player <==> b.context@[k].index == rank),
        forall|k: int, m: int| 0 <= k < b.top@.len() && 0 <= m < b.context@.len()
            ==> (#[trigger] b.top@[k]).index < (#[trigger] b.context@[m]).index,
        forall|k: int, m: int| 0 <= k < m < b.context@.len()
            ==> (#[trigger] b.context@[k]).index < (#[trigger] b.context@[m]).index,
        b.separator ==> exists|k: int| 0 <= k < b.context@.len() && (#[trigger] b.context@[k]).is_player,
{
    if b.separator {
        let from = max_int(rank - 2, TOP_ROWS as int);
        assert(b.context@[rank - from].is_player);
    }
}

/// The colour class of a rank on the leaderboard screen.
#[derive(Clone, Copy, PartialEq, Eq, Structural, Debug)]
pub enum RankStyle {
    Gold,
    Silver,
    Bronze,
    Plain,
}

/// The colour class of a one-based rank: the podium gets gold, silver and bronze.
pub open spec fn style_of(rank: nat) -> RankStyle {
    if rank == 1 {
        RankStyle::Gold
    } else if rank == 2 {
        RankStyle::Silver
    } else if rank == 3 {
        RankStyle::Bronze
    } else {
        RankStyle::Plain
    }
}

/// The colour class of a one-based rank on the leaderboard screen.
pub fn rank_style(rank: usize) -> (s: RankStyle)
    ensures
        s == style_of(rank as nat),
{
    if rank == 1 {
        RankStyle::Gold
    } else if rank == 2 {
        RankStyle::Silver
    } else if rank == 3 {
        RankStyle::Bronze
    } else {
        RankStyle::Plain
    }
}

/// How many entries the leaderboard screen lists: at most ten, and none in an
/// anonymous game, which has no leaderboard.
pub fn screen_row_count(connected: bool, len: usize) -> (n: usize)
    ensures
        n == if connected { min_int(len as int, SCREEN_ROWS as int) } else { 0 },
{
    if !connected {
        0
    } else if len < SCREEN_ROWS {
        len
    } else {
        SCREEN_ROWS
    }
}

/// What the leaderboard part of the game-over screen shows.
#[derive(Clone, Copy, PartialEq, Eq, Structural, Debug)]
pub enum BoardPanel {
    /// An invitation to sign in: an anonymous game has no leaderboard.
    SignIn,
    /// A loading indicator: a fetch is running or nothing was received yet.
    Loading,
    /// The rows of [`game_over_board`].
    Rows,
}

/// The leaderboard part of the game-over screen: a sign-in invitation when the game is
/// anonymous, a loading indicator while a fetch runs or the list is empty, else the rows.
pub open spec fn panel_of(connected: bool, loading: bool, len: nat) -> BoardPanel {
    if !connected {
        BoardPanel::SignIn
    } else if loading || len == 0 {
        BoardPanel::Loading
    } else {
        BoardPanel::Rows
    }
}

/// The leaderboard part of the game-over screen (see [`panel_of`]).
pub fn game_over_panel(connected: bool, loading: bool, len: usize) -> (p: BoardPanel)
    ensures
        p == panel_of(connected, loading, len as nat),
{
    if !connected {
        BoardPanel::SignIn
    } else if loading || len == 0 {
        BoardPanel::Loading
    } else {
        BoardPanel::Rows
    }
}

/// The part of a name that a game-over row prints: its first twelve bytes when it is
/// longer than that, else the whole name. The cut must fall on a character boundary.
pub fn row_name(name: &str) -> (r: &str)
    requires
        name.spec_bytes().len() <= usize::MAX,
        name.spec_bytes().len() > ROW_NAME_BYTES ==> vstd::utf8::is_char_boundary(
            name.spec_bytes(),
            ROW_NAME_BYTES as int,
        ),
    ensures
        r.spec_bytes() == if name.spec_bytes().len() > ROW_NAME_BYTES {
            name.spec_bytes().take(ROW_NAME_BYTES as int)
        } else {
            name.spec_bytes()
        },
{
    if name.len() > ROW_NAME_BYTES {
        let (head, _tail) = name.split_at(ROW_NAME_BYTES);
        head
    } else {
        name
    }
}

/// The leaderboard as last fetched from the platform, and whether a fetch is running.
pub struct LeaderboardCache {
    fetching: bool,
    entries: Option<Vec<LeaderboardEntry>>,
}

/// What a [`LeaderboardCache`] holds: the fetch flag and the cached list, if any.
pub struct CacheView {
    pub fetching: bool,
    pub entries: Option<Seq<LeaderboardEntry>>,
}

impl View for LeaderboardCache {
    type V = CacheView;

    closed spec fn view(&self) -> CacheView {
        CacheView {
            fetching: self.fetching,
            entries: match self.entries {
                Some(v) => Some(v@),
                None => None,
            },
        }
    }
}

/// The entries a cache hands out: the cached list, or none.
pub open spec fn cached_or_empty(c: CacheView) -> Seq<LeaderboardEntry> {
    match c.entries {
        Some(s) => s,
        None => Seq::empty(),
    }
}

/// Starting a fetch: it must really be started only when none is running; either way
/// a fetch is running afterwards.
pub open spec fn after_start(c: CacheView) -> (bool, CacheView) {
    (!c.fetching, CacheView { fetching: true, entries: c.entries })
}

/// Finishing a fetch: none is running afterwards.
pub open spec fn after_finish(c: CacheView) -> CacheView {
    CacheView { fetching: false, entries: c.entries }
}

/// Storing a leaderboard: it replaces the cached one.
pub open spec fn after_store(c: CacheView, entries: Seq<LeaderboardEntry>) -> CacheView {
    CacheView { fetching: c.fetching, entries: Some(entries) }
}

impl LeaderboardCache {
    /// An empty cache with no fetch running.
    pub fn new() -> (c: Self)
        ensures
            !c@.fetching,
            c@.entries is None,
    {
        LeaderboardCache { fetching: false, entries: None }
    }

    /// Whether a fetch is running.
    pub fn is_leaderboard_loading(&self) -> (b: bool)
        ensures
            b == self@.fetching,
    {
        self.fetching
    }

    /// Marks a fetch as started (see [`after_start`]). Returns whether the caller must
    /// start one.
    pub fn start_leaderboard_fetch(&mut self) -> (start: bool)
        ensures
            (start, final(self)@) == after_start(old(self)@),
    {
        if !self.fetching {
            self.fetching = true;
            true
        } else {
            false
        }
    }

    /// Marks the running fetch as done.
    pub fn finish_fetch(&mut self)
        ensures
            final(self)@ == after_finish(old(self)@),
    {
        self.fetching = false;
    }

    /// A copy of the cached leaderboard, or an empty list when nothing was cached.
    pub fn get_leaderboard(&self) -> (r: Vec<LeaderboardEntry>)
        ensures
            r@ == cached_or_empty(self@),
    {
        match &self.entries {
            Some(v) => duplicate_entries(v),
            None => Vec::new(),
        }
    }

    /// Replaces the cached leaderboard.
    pub fn update_leaderboard_cache(&mut self, entries: Vec<LeaderboardEntry>)
        ensures
            final(self)@ == after_store(old(self)@, entries@),
    {
        self.entries = Some(entries);
    }
}

/// A read of the cache gives back what the last update wrote, whatever fetches start or
/// finish in between.
pub proof fn lemma_cache_read_after_write(c: CacheView, entries: Seq<LeaderboardEntry>)
    ensures
        cached_or_empty(after_store(c, entries)) == entries,
        cached_or_empty(after_start(after_store(c, entries)).1) == entries,
        cached_or_empty(after_finish(after_store(c, entries))) == entries,
{
}

/// A fetch is started at most once until it is finished: a second start right after a
/// first one starts nothing, and once the fetch is finished the next start does start one.
pub proof fn lemma_fetch_runs_once(c: CacheView)
    ensures
        !after_start(after_start(c).1).0,
        after_start(after_finish(after_start(c).1)).0,
{
}

/// The game-over panel in every case: the sign-in invitation exactly when the game is
/// anonymous; for a connected game, the rows whenever no fetch runs and the leaderboard
/// holds at least one entry, and the loading indicator otherwise.
pub proof fn lemma_game_over_panel_cases(connected: bool, loading: bool, len: nat)
    ensures
        !connected ==> panel_of(connected, loading, len) == BoardPanel::SignIn,
        connected && !loading && len > 0 ==> panel_of(connected, loading, len) == BoardPanel::Rows,
        connected && (loading || len == 0) ==> panel_of(connected, loading, len) == BoardPanel::Loading,
{
}

} // verus!
