use vstd::prelude::*;
use itertools::Itertools;
use crate::codec::{self, GameCommand, Player, TableInfo};

verus! {

/// The runs of equal keys, in order: each key with the number of consecutive
/// entries that have it.
pub open spec fn runs(keys: Seq<Option<usize>>) -> Seq<(Option<usize>, usize)>
    decreases keys.len(),
{
    if keys.len() == 0 {
        Seq::empty()
    } else {
        let r = runs(keys.drop_last());
        if r.len() > 0 && r.last().0 == keys.last() {
            r.update(r.len() - 1, (keys.last(), (r.last().1 + 1) as usize))
        } else {
            r.push((keys.last(), 1usize))
        }
    }
}

/// `Itertools::group_by` on the keys, each group counted: the runs of equal
/// consecutive keys, each with its key and its length, in order.
#[verifier::external_body]
fn group_runs(keys: &Vec<Option<usize>>) -> (r: Vec<(Option<usize>, usize)>)
    ensures
        r@ == runs(keys@),
{
    let grouped = keys.iter().group_by(|k| **k);
    let counted: Vec<(Option<usize>, usize)> = (&grouped).into_iter().map(|(k, g)| (k, g.count())).collect();
    counted
}

/// Where run `k` starts: the entries of the runs before it.
pub open spec fn run_start(rs: Seq<(Option<usize>, usize)>, k: int) -> int
    decreases k,
{
    if k <= 0 { 0 } else { run_start(rs, k - 1) + rs[k - 1].1 }
}

/// The runs cover the keys: none is empty or longer than the keys, and together they
/// are as long as the keys.
pub open spec fn runs_cover(keys: Seq<Option<usize>>, rs: Seq<(Option<usize>, usize)>) -> bool {
    &&& forall|k: int| 0 <= k < rs.len() ==> 1 <= (#[trigger] rs[k]).1 <= keys.len()
    &&& run_start(rs, rs.len() as int) == keys.len()
}

/// The runs of any keys cover them.
pub proof fn lemma_runs(keys: Seq<Option<usize>>)
    requires
        keys.len() <= usize::MAX,
    ensures
        runs_cover(keys, runs(keys)),
    decreases keys.len(),
{
    if keys.len() > 0 {
        let pre = keys.drop_last();
        lemma_runs(pre);
        let r = runs(pre);
        let rs = runs(keys);
        if r.len() > 0 && r.last().0 == keys.last() {
            assert(r[r.len() - 1].1 <= pre.len());
            let x = (keys.last(), (r.last().1 + 1) as usize);
            assert(rs == r.update(r.len() - 1, x));
            lemma_run_start_update(r, x, r.len() as int);
        } else {
            assert(rs == r.push((keys.last(), 1usize)));
            lemma_run_start_push(r, (keys.last(), 1usize), r.len() as int);
        }
    }
}

/// Where a later run starts is no earlier.
pub proof fn lemma_run_start_mono(r: Seq<(Option<usize>, usize)>, a: int, b: int)
    requires
        0 <= a <= b,
    ensures
        run_start(r, a) <= run_start(r, b),
    decreases b,
{
    if a < b {
        lemma_run_start_mono(r, a, b - 1);
    }
}

proof fn lemma_run_start_push(r: Seq<(Option<usize>, usize)>, x: (Option<usize>, usize), k: int)
    requires
        0 <= k <= r.len(),
    ensures
        run_start(r.push(x), k) == run_start(r, k),
    decreases k,
{
    if k > 0 {
        lemma_run_start_push(r, x, k - 1);
    }
}

proof fn lemma_run_start_update(r: Seq<(Option<usize>, usize)>, x: (Option<usize>, usize), k: int)
    requires
        r.len() > 0,
        0 <= k <= r.len(),
        x.1 == r.last().1 + 1,
    ensures
        run_start(r.update(r.len() - 1, x), k) == run_start(r, k) + (if k == r.len() { 1int } else { 0int }),
    decreases k,
{
    if k > 0 {
        lemma_run_start_update(r, x, k - 1);
    }
}


/// A connection in the lobby.
#[derive(Debug, Clone)]
pub struct Connection {
    pub addr: String,
    pub name: String,
    pub table: Option<usize>,
    pub game_started: bool,
    pub player_num: Option<usize>,
    pub number_of_player: usize,
    pub ready: bool,
}

/// The mathematical value of a `Connection`.
#[verifier::ext_equal]
pub struct ConnectionView {
    pub addr: Seq<char>,
    pub name: Seq<char>,
    pub table: Option<usize>,
    pub game_started: bool,
    pub player_num: Option<usize>,
    pub number_of_player: usize,
    pub ready: bool,
}

impl View for Connection {
    type V = ConnectionView;

    open spec fn view(&self) -> ConnectionView {
        ConnectionView {
            addr: self.addr@,
            name: self.name@,
            table: self.table,
            game_started: self.game_started,
            player_num: self.player_num,
            number_of_player: self.number_of_player,
            ready: self.ready,
        }
    }
}

impl Connection {
    /// A new connection at `addr`: named "defaultname", at no table, for
    /// three players, not ready.
    pub fn new(addr: String) -> (c: Connection)
        ensures
            c@ == (ConnectionView {
                addr: addr@,
                name: "defaultname"@,
                table: None,
                game_started: false,
                player_num: None,
                number_of_player: 3,
                ready: false,
            }),
    {
        Connection {
            addr,
            name: codec::owned("defaultname"),
            table: None,
            game_started: false,
            player_num: None,
            number_of_player: 3,
            ready: false,
        }
    }

    /// A copy of the connection.
    pub fn duplicate(&self) -> (c: Connection)
        ensures
            c@ == self@,
    {
        Connection {
            addr: self.addr.clone(),
            name: self.name.clone(),
            table: self.table,
            game_started: self.game_started,
            player_num: self.player_num,
            number_of_player: self.number_of_player,
            ready: self.ready,
        }
    }
}

pub open spec fn conns_view(cs: Seq<Connection>) -> Seq<ConnectionView> {
    cs.map_values(|c: Connection| c@)
}

/// The table of each connection.
pub open spec fn keys_of(cs: Seq<ConnectionView>) -> Seq<Option<usize>> {
    cs.map_values(|c: ConnectionView| c.table)
}

/// Whether a connection has the address.
pub open spec fn has_addr(cs: Seq<ConnectionView>, addr: Seq<char>) -> bool {
    exists|i: int| 0 <= i < cs.len() && (#[trigger] cs[i]).addr == addr
}

/// The position of the connection with the address.
pub open spec fn addr_at(cs: Seq<ConnectionView>, addr: Seq<char>) -> int {
    choose|i: int| 0 <= i < cs.len() && (#[trigger] cs[i]).addr == addr
}

/// No two connections share an address.
pub open spec fn distinct_addrs(cs: Seq<ConnectionView>) -> bool {
    forall|i: int, j: int| 0 <= i < cs.len() && 0 <= j < cs.len() && i != j ==> (#[trigger] cs[i]).addr != (#[trigger] cs[j]).addr
}

/// The position of the connection with the address, if any.
pub fn find_addr(cs: &Vec<Connection>, addr: &String) -> (r: Option<usize>)
    requires
        distinct_addrs(conns_view(cs@)),
    ensures
        match r {
            Some(i) => i < cs@.len() && has_addr(conns_view(cs@), addr@) && i == addr_at(conns_view(cs@), addr@),
            None => !has_addr(conns_view(cs@), addr@),
        },
{
    let ghost v = conns_view(cs@);
    let mut i: usize = 0;
    while i < cs.len()
        invariant
            i <= cs@.len(),
            v == conns_view(cs@),
            distinct_addrs(v),
            forall|j: int| 0 <= j < i ==> (#[trigger] v[j]).addr != addr@,
        decreases cs@.len() - i,
    {
        if cs[i].addr == *addr {
            assert(v[i as int].addr == addr@);
            proof {
                assert(has_addr(v, addr@));
                let k = addr_at(v, addr@);
                if k != i as int {
                    assert(v[k].addr == v[i as int].addr);
                }
            }
            return Some(i);
        }
        i = i + 1;
    }
    None
}

/// The mathematical value of a `TableInfo`: the player names and the seat count.
pub open spec fn info_view(t: TableInfo) -> (Seq<Seq<char>>, usize) {
    (t.players@.map_values(|s: String| s@), t.numberOfPlayers)
}

/// The tables open to join: for each run of connections at the same table
/// that has not started (as its last connection says), the names of its
/// connections and the seat count of its last connection.
pub open spec fn infos_upto(cs: Seq<ConnectionView>, rs: Seq<(Option<usize>, usize)>, k: int) -> Seq<(Seq<Seq<char>>, usize)>
    decreases k,
{
    if k <= 0 {
        Seq::empty()
    } else {
        let prev = infos_upto(cs, rs, k - 1);
        let s = run_start(rs, k - 1);
        let run = cs.subrange(s, s + rs[k - 1].1);
        if rs[k - 1].0 is Some && !run.last().game_started {
            prev.push((run.map_values(|c: ConnectionView| c.name), run.last().number_of_player))
        } else {
            prev
        }
    }
}

pub open spec fn table_infos(cs: Seq<ConnectionView>) -> Seq<(Seq<Seq<char>>, usize)> {
    infos_upto(cs, runs(keys_of(cs)), runs(keys_of(cs)).len() as int)
}

/// The connections not in a game, in order.
pub open spec fn in_lobby(cs: Seq<ConnectionView>) -> Seq<ConnectionView>
    decreases cs.len(),
{
    if cs.len() == 0 {
        Seq::empty()
    } else if cs.last().game_started {
        in_lobby(cs.drop_last())
    } else {
        in_lobby(cs.drop_last()).push(cs.last())
    }
}

/// A message for the lobby.
#[derive(Debug, Clone)]
pub enum LobbyMsg {
    /// The open tables, with the table and name of the connection it goes to.
    Tables { to: String, tables: Vec<TableInfo>, tablenumber: Option<usize>, sender: String },
    /// A chat message.
    Chat { to: String, message: String, location: String, sender: String },
}

/// The message with the open tables for connection `c`.
pub open spec fn is_tables_msg(m: LobbyMsg, c: ConnectionView, infos: Seq<(Seq<Seq<char>>, usize)>) -> bool {
    m matches LobbyMsg::Tables { to, tables, tablenumber, sender }
        && to@ == c.addr && tables@.map_values(|t: TableInfo| info_view(t)) == infos
        && tablenumber == c.table && sender@ == c.name
}

/// The messages with the open tables, one to each connection not in a game.
pub open spec fn is_tables_broadcast(ms: Seq<LobbyMsg>, cs: Seq<ConnectionView>) -> bool {
    &&& ms.len() == in_lobby(cs).len()
    &&& forall|k: int| 0 <= k < ms.len() ==> is_tables_msg(#[trigger] ms[k], in_lobby(cs)[k], table_infos(cs))
}

fn copy_names(names: &Vec<String>) -> (r: Vec<String>)
    ensures
        r@.map_values(|s: String| s@) == names@.map_values(|s: String| s@),
{
    let mut r: Vec<String> = Vec::new();
    let mut i: usize = 0;
    while i < names.len()
        invariant
            i <= names@.len(),
            r@.len() == i,
            forall|j: int| 0 <= j < i ==> (#[trigger] r@[j])@ == names@[j]@,
        decreases names@.len() - i,
    {
        r.push(names[i].clone());
        i = i + 1;
    }
    assert(r@.map_values(|s: String| s@) =~= names@.map_values(|s: String| s@));
    r
}

fn copy_infos(infos: &Vec<TableInfo>) -> (r: Vec<TableInfo>)
    ensures
        r@.map_values(|t: TableInfo| info_view(t)) == infos@.map_values(|t: TableInfo| info_view(t)),
{
    let mut r: Vec<TableInfo> = Vec::new();
    let mut i: usize = 0;
    while i < infos.len()
        invariant
            i <= infos@.len(),
            r@.len() == i,
            forall|j: int| 0 <= j < i ==> info_view(#[trigger] r@[j]) == info_view(infos@[j]),
        decreases infos@.len() - i,
    {
        r.push(TableInfo::new(copy_names(&infos[i].players), infos[i].numberOfPlayers));
        i = i + 1;
    }
    assert(r@.map_values(|t: TableInfo| info_view(t)) =~= infos@.map_values(|t: TableInfo| info_view(t)));
    r
}

fn collect_infos(cs: &Vec<Connection>) -> (infos: Vec<TableInfo>)
    ensures
        infos@.map_values(|t: TableInfo| info_view(t)) == table_infos(conns_view(cs@)),
{
    let ghost v = conns_view(cs@);
    let mut keys: Vec<Option<usize>> = Vec::new();
    let mut i: usize = 0;
    while i < cs.len()
        invariant
            i <= cs@.len(),
            v == conns_view(cs@),
            keys@ == keys_of(v).subrange(0, i as int),
        decreases cs@.len() - i,
    {
        keys.push(cs[i].table);
        i = i + 1;
        assert(keys@ =~= keys_of(v).subrange(0, i as int));
    }
    assert(keys@ =~= keys_of(v));
    let rs = group_runs(&keys);
    proof {
        lemma_runs(keys@);
    }
    let total = cs.len();
    let mut infos: Vec<TableInfo> = Vec::new();
    let mut pos: usize = 0;
    let mut k: usize = 0;
    while k < rs.len()
        invariant
            k <= rs@.len(),
            v == conns_view(cs@),
            rs@ == runs(keys_of(v)),
            total == cs@.len(),
            runs_cover(keys_of(v), rs@),
            pos == run_start(rs@, k as int),
            infos@.map_values(|t: TableInfo| info_view(t)) == infos_upto(v, rs@, k as int),
        decreases rs@.len() - k,
    {
        let (key, len) = rs[k];
        proof {
            lemma_run_start_mono(rs@, k + 1, rs@.len() as int);
            assert(len == rs@[k as int].1);
            assert(run_start(rs@, k + 1) == pos + len);
            assert(keys_of(v).len() == cs@.len());
            assert(pos + len <= cs@.len());
        }
        let mut names: Vec<String> = Vec::new();
        let mut j: usize = 0;
        while j < len
            invariant
                j <= len,
                total == cs@.len(),
                pos + len <= cs@.len(),
                v == conns_view(cs@),
                names@.map_values(|s: String| s@) == v.subrange(pos as int, pos + j).map_values(|c: ConnectionView| c.name),
            decreases len - j,
        {
            let ghost before = names@;
            let nm = cs[pos + j].name.clone();
            assert(nm@ == v[pos + j].name);
            names.push(nm);
            proof {
                assert(names@.map_values(|s: String| s@) =~= before.map_values(|s: String| s@).push(v[pos + j].name));
                assert(v.subrange(pos as int, pos + j + 1).map_values(|c: ConnectionView| c.name)
                    =~= v.subrange(pos as int, pos + j).map_values(|c: ConnectionView| c.name).push(v[pos + j].name));
            }
            j = j + 1;
        }
        let ghost pre = infos@.map_values(|t: TableInfo| info_view(t));
        if len > 0 {
            let last = pos + len - 1;
            assert(v.subrange(pos as int, pos + len).last() == v[last as int]);
            if key.is_some() && !cs[last].game_started {
                infos.push(TableInfo::new(names, cs[last].number_of_player));
                assert(infos@.map_values(|t: TableInfo| info_view(t)) =~= pre.push((v.subrange(pos as int, pos + len).map_values(|c: ConnectionView| c.name), v[last as int].number_of_player)));
            }
        } else {
            assert(false) by {
                assert(rs@[k as int].1 == len);
            }
        }
        pos = pos + len;
        k = k + 1;
    }
    infos
}


/// The lobby: every connection, and the number of the next table to make.
pub struct Lobby {
    pub connections: Vec<Connection>,
    pub table_index: usize,
}

/// Sends the open tables to each connection not in a game.
fn send_tables(cs: &Vec<Connection>, out: &mut Vec<LobbyMsg>)
    ensures
        final(out)@.len() >= old(out)@.len(),
        final(out)@.subrange(0, old(out)@.len() as int) == old(out)@,
        is_tables_broadcast(final(out)@.subrange(old(out)@.len() as int, final(out)@.len() as int), conns_view(cs@)),
{
    let ghost v = conns_view(cs@);
    let ghost o0 = out@;
    let infos = collect_infos(cs);
    let mut i: usize = 0;
    while i < cs.len()
        invariant
            i <= cs@.len(),
            v == conns_view(cs@),
            infos@.map_values(|t: TableInfo| info_view(t)) == table_infos(v),
            out@.len() >= o0.len(),
            out@.subrange(0, o0.len() as int) == o0,
            is_tables_broadcast_upto(out@.subrange(o0.len() as int, out@.len() as int), v, i as int),
        decreases cs@.len() - i,
    {
        assert(v.subrange(0, i + 1).drop_last() =~= v.subrange(0, i as int));
        let ghost before = out@;
        if !cs[i].game_started {
            let m = LobbyMsg::Tables {
                to: cs[i].addr.clone(),
                tables: copy_infos(&infos),
                tablenumber: cs[i].table,
                sender: cs[i].name.clone(),
            };
            out.push(m);
            proof {
                assert(out@.subrange(0, o0.len() as int) =~= before.subrange(0, o0.len() as int));
                let t0 = before.subrange(o0.len() as int, before.len() as int);
                let t1 = out@.subrange(o0.len() as int, out@.len() as int);
                assert(t1 =~= t0.push(m));
                assert(in_lobby(v.subrange(0, i + 1)) == in_lobby(v.subrange(0, i as int)).push(v[i as int]));
                assert forall|k: int| 0 <= k < t1.len() implies is_tables_msg(#[trigger] t1[k], in_lobby(v.subrange(0, i + 1))[k], table_infos(v)) by {
                    if k < t0.len() {
                        assert(t1[k] == t0[k]);
                    }
                }
            }
        } else {
            assert(in_lobby(v.subrange(0, i + 1)) == in_lobby(v.subrange(0, i as int)));
        }
        i = i + 1;
    }
    assert(v.subrange(0, v.len() as int) =~= v);
}

/// The messages with the open tables, one to each of the first `n` connections not in a game.
pub open spec fn is_tables_broadcast_upto(ms: Seq<LobbyMsg>, cs: Seq<ConnectionView>, n: int) -> bool {
    &&& ms.len() == in_lobby(cs.subrange(0, n)).len()
    &&& forall|k: int| 0 <= k < ms.len() ==> is_tables_msg(#[trigger] ms[k], in_lobby(cs.subrange(0, n))[k], table_infos(cs))
}

/// The connections at table `t` leave it.
pub open spec fn leave_table(cs: Seq<ConnectionView>, t: usize) -> Seq<ConnectionView> {
    cs.map_values(|c: ConnectionView| if c.table == Some(t) { ConnectionView { table: None, player_num: None, ..c } } else { c })
}

/// The connections without the one at `addr`.
pub open spec fn without_addr(cs: Seq<ConnectionView>, addr: Seq<char>) -> Seq<ConnectionView> {
    if has_addr(cs, addr) { cs.remove(addr_at(cs, addr)) } else { cs }
}

/// The connections with `c` in the place of the one at its address, or added last.
pub open spec fn with_connection(cs: Seq<ConnectionView>, c: ConnectionView) -> Seq<ConnectionView> {
    if has_addr(cs, c.addr) { cs.update(addr_at(cs, c.addr), c) } else { cs.push(c) }
}

impl Lobby {
    /// No two connections share an address.
    pub open spec fn wf(&self) -> bool {
        distinct_addrs(conns_view(self.connections@))
    }

    /// An empty lobby.
    pub fn new() -> (l: Lobby)
        ensures
            l.wf(),
            l.connections@ == Seq::<Connection>::empty(),
            l.table_index == 0,
    {
        Lobby { connections: Vec::new(), table_index: 0 }
    }

    /// Sends the open tables to each connection not in a game.
    pub fn broadcast_tableinfo(&self, out: &mut Vec<LobbyMsg>)
        ensures
            final(out)@.len() >= old(out)@.len(),
            final(out)@.subrange(0, old(out)@.len() as int) == old(out)@,
            is_tables_broadcast(final(out)@.subrange(old(out)@.len() as int, final(out)@.len() as int), conns_view(self.connections@)),
    {
        send_tables(&self.connections, out);
    }

    /// Adds the connection, in the place of the one with the same address if there is one.
    pub fn add_connection(&mut self, player: Connection)
        requires
            old(self).wf(),
        ensures
            final(self).wf(),
            final(self).table_index == old(self).table_index,
            conns_view(final(self).connections@) == with_connection(conns_view(old(self).connections@), player@),
    {
        let ghost v = conns_view(self.connections@);
        match find_addr(&self.connections, &player.addr) {
            Some(i) => {
                self.connections.set(i, player);
                assert(conns_view(self.connections@) =~= v.update(i as int, player@));
            },
            None => {
                self.connections.push(player);
                assert(conns_view(self.connections@) =~= v.push(player@));
            },
        }
        proof {
            let w = conns_view(self.connections@);
            assert forall|i: int, j: int| 0 <= i < w.len() && 0 <= j < w.len() && i != j implies (#[trigger] w[i]).addr != (#[trigger] w[j]).addr by {
                if i < v.len() && j < v.len() && w[i] == v[i] && w[j] == v[j] {
                } else if w[i].addr == player@.addr && w[j].addr == player@.addr {
                } else {
                }
            }
        }
    }

    /// Removes the connection at `addr`, if any, and sends the open tables.
    pub fn remove_connection(&mut self, addr: &String, out: &mut Vec<LobbyMsg>)
        requires
            old(self).wf(),
        ensures
            final(self).wf(),
            final(self).table_index == old(self).table_index,
            conns_view(final(self).connections@) == without_addr(conns_view(old(self).connections@), addr@),
            final(out)@.len() >= old(out)@.len(),
            final(out)@.subrange(0, old(out)@.len() as int) == old(out)@,
            is_tables_broadcast(final(out)@.subrange(old(out)@.len() as int, final(out)@.len() as int), conns_view(final(self).connections@)),
    {
        let ghost v = conns_view(self.connections@);
        if let Some(i) = find_addr(&self.connections, addr) {
            self.connections.remove(i);
            assert(conns_view(self.connections@) =~= v.remove(i as int));
        }
        proof {
            let w = conns_view(self.connections@);
            assert forall|i: int, j: int| 0 <= i < w.len() && 0 <= j < w.len() && i != j implies (#[trigger] w[i]).addr != (#[trigger] w[j]).addr by {
                if has_addr(v, addr@) {
                    let k = addr_at(v, addr@);
                    let i0 = if i < k { i } else { i + 1 };
                    let j0 = if j < k { j } else { j + 1 };
                    assert(w[i] == v[i0] && w[j] == v[j0]);
                }
            }
        }
        self.broadcast_tableinfo(out);
    }

    /// Every connection at the table leaves it; the open tables are sent.
    pub fn remove_table(&mut self, table_num: usize, out: &mut Vec<LobbyMsg>)
        requires
            old(self).wf(),
        ensures
            final(self).wf(),
            final(self).table_index == old(self).table_index,
            conns_view(final(self).connections@) == leave_table(conns_view(old(self).connections@), table_num),
            final(out)@.len() >= old(out)@.len(),
            final(out)@.subrange(0, old(out)@.len() as int) == old(out)@,
            is_tables_broadcast(final(out)@.subrange(old(out)@.len() as int, final(out)@.len() as int), conns_view(final(self).connections@)),
    {
        let ghost v = conns_view(self.connections@);
        let mut i: usize = 0;
        while i < self.connections.len()
            invariant
                i <= self.connections@.len(),
                self.connections@.len() == v.len(),
                self.table_index == old(self).table_index,
                forall|k: int| 0 <= k < i ==> (#[trigger] self.connections@[k])@ == leave_table(v, table_num)[k],
                forall|k: int| i <= k < v.len() ==> (#[trigger] self.connections@[k])@ == v[k],
            decreases self.connections@.len() - i,
        {
            if self.connections[i].table == Some(table_num) {
                let ghost before = self.connections@;
                let mut c = self.connections[i].duplicate();
                c.table = None;
                c.player_num = None;
                self.connections.set(i, c);
                assert(forall|k: int| 0 <= k < before.len() && k != i ==> self.connections@[k] == before[k]);
            }
            i = i + 1;
        }
        assert(conns_view(self.connections@) =~= leave_table(v, table_num));
        self.broadcast_tableinfo(out);
    }
}


/// The tables of the runs that have not started, as the first connection of each run says.
pub open spec fn open_upto(cs: Seq<ConnectionView>, rs: Seq<(Option<usize>, usize)>, k: int) -> Seq<usize>
    decreases k,
{
    if k <= 0 {
        Seq::empty()
    } else {
        let prev = open_upto(cs, rs, k - 1);
        if rs[k - 1].0 is Some && !cs[run_start(rs, k - 1)].game_started {
            prev.push(rs[k - 1].0->Some_0)
        } else {
            prev
        }
    }
}

pub open spec fn open_tables(cs: Seq<ConnectionView>) -> Seq<usize> {
    open_upto(cs, runs(keys_of(cs)), runs(keys_of(cs)).len() as int)
}

/// The table number after counting from zero up to the old number `ti0`:
/// each number that is not an open table is taken, and each open one moves
/// the number on by one.
pub open spec fn next_index(open: Seq<usize>, ti0: usize, n: nat) -> int
    decreases n,
{
    if n == 0 {
        ti0 as int
    } else {
        let prev = next_index(open, ti0, (n - 1) as nat);
        if !open.contains((n - 1) as usize) { n - 1 } else { prev + 1 }
    }
}

proof fn lemma_next_index_bound(open: Seq<usize>, ti0: usize, n: nat)
    ensures
        0 <= next_index(open, ti0, n) <= ti0 + n,
    decreases n,
{
    if n > 0 {
        lemma_next_index_bound(open, ti0, (n - 1) as nat);
    }
}

fn collect_open(cs: &Vec<Connection>) -> (open: Vec<usize>)
    ensures
        open@ == open_tables(conns_view(cs@)),
{
    let ghost v = conns_view(cs@);
    let mut keys: Vec<Option<usize>> = Vec::new();
    let mut i: usize = 0;
    while i < cs.len()
        invariant
            i <= cs@.len(),
            v == conns_view(cs@),
            keys@ == keys_of(v).subrange(0, i as int),
        decreases cs@.len() - i,
    {
        keys.push(cs[i].table);
        i = i + 1;
        assert(keys@ =~= keys_of(v).subrange(0, i as int));
    }
    assert(keys@ =~= keys_of(v));
    let rs = group_runs(&keys);
    proof {
        lemma_runs(keys@);
    }
    let total = cs.len();
    let mut open: Vec<usize> = Vec::new();
    let mut pos: usize = 0;
    let mut k: usize = 0;
    while k < rs.len()
        invariant
            k <= rs@.len(),
            v == conns_view(cs@),
            total == cs@.len(),
            rs@ == runs(keys_of(v)),
            runs_cover(keys_of(v), rs@),
            pos == run_start(rs@, k as int),
            open@ == open_upto(v, rs@, k as int),
        decreases rs@.len() - k,
    {
        let (key, len) = rs[k];
        proof {
            lemma_run_start_mono(rs@, k + 1, rs@.len() as int);
            assert(len == rs@[k as int].1);
            assert(run_start(rs@, k + 1) == pos + len);
            assert(keys_of(v).len() == cs@.len());
            assert(pos < cs@.len());
        }
        if let Some(t) = key {
            if !cs[pos].game_started {
                open.push(t);
            }
        }
        pos = pos + len;
        k = k + 1;
    }
    open
}

/// The connections after the one at `addr`, if any, is seated first at table `t`.
pub open spec fn seat_at(cs: Seq<ConnectionView>, addr: Seq<char>, t: usize) -> Seq<ConnectionView> {
    if has_addr(cs, addr) {
        let i = addr_at(cs, addr);
        cs.update(i, ConnectionView { table: Some(t), player_num: Some(0), ..cs[i] })
    } else {
        cs
    }
}

impl Lobby {
    /// Makes a table for the player: the player's connection is seated first
    /// at the table numbered by `table_index`, the next table number is
    /// counted, and the open tables are sent.
    pub fn make_table(&mut self, player: &Connection, out: &mut Vec<LobbyMsg>)
        requires
            old(self).wf(),
            old(self).table_index <= usize::MAX / 2,
        ensures
            final(self).wf(),
            conns_view(final(self).connections@) == seat_at(conns_view(old(self).connections@), player.addr@, old(self).table_index),
            final(self).table_index == next_index(open_tables(conns_view(final(self).connections@)), old(self).table_index, old(self).table_index as nat),
            final(out)@.len() >= old(out)@.len(),
            final(out)@.subrange(0, old(out)@.len() as int) == old(out)@,
            is_tables_broadcast(final(out)@.subrange(old(out)@.len() as int, final(out)@.len() as int), conns_view(final(self).connections@)),
    {
        let table_n = self.table_index;
        let ghost v = conns_view(self.connections@);
        if let Some(i) = find_addr(&self.connections, &player.addr) {
            let mut c = self.connections[i].duplicate();
            c.table = Some(table_n);
            c.player_num = Some(0);
            self.connections.set(i, c);
            assert(conns_view(self.connections@) =~= seat_at(v, player.addr@, table_n));
        }
        proof {
            let w = conns_view(self.connections@);
            assert forall|a: int, b: int| 0 <= a < w.len() && 0 <= b < w.len() && a != b implies (#[trigger] w[a]).addr != (#[trigger] w[b]).addr by {
                assert(w[a].addr == v[a].addr && w[b].addr == v[b].addr);
            }
        }
        assert(conns_view(self.connections@) == seat_at(v, player.addr@, table_n));
        let temp_tables = collect_open(&self.connections);
        let ghost open = temp_tables@;
        let ghost w = conns_view(self.connections@);
        let mut i: usize = 0;
        while i < table_n
            invariant
                i <= table_n,
                w == conns_view(self.connections@),
                w == seat_at(v, player.addr@, table_n),
                distinct_addrs(w),
                table_n <= usize::MAX / 2,
                temp_tables@ == open,
                self.table_index == next_index(open, table_n, i as nat),
            decreases table_n - i,
        {
            proof {
                lemma_next_index_bound(open, table_n, i as nat);
            }
            if !codec::contains_id(&temp_tables, i) {
                self.table_index = i;
            } else {
                self.table_index = self.table_index + 1;
            }
            i = i + 1;
        }
        self.broadcast_tableinfo(out);
    }
}


/// A table whose game was started: its connections and its seat count.
#[allow(non_snake_case)]
pub struct Table {
    pub players: Vec<Connection>,
    pub numberOfPlayer: usize,
}

impl Table {
    #[allow(non_snake_case)]
    pub fn new(players: Vec<Connection>, numberOfPlayer: usize) -> (t: Table)
        ensures
            t.players@ == players@,
            t.numberOfPlayer == numberOfPlayer,
    {
        Table { players, numberOfPlayer }
    }

    /// The players of the game: one for each connection of the table, with its name.
    pub fn start_game(&self) -> (ps: Vec<Player>)
        ensures
            ps@.len() == self.players@.len(),
            forall|i: int| 0 <= i < ps@.len() ==> (#[trigger] ps@[i])@ == codec::new_player(self.players@[i].name@),
    {
        let mut ps: Vec<Player> = Vec::new();
        let mut i: usize = 0;
        while i < self.players.len()
            invariant
                i <= self.players@.len(),
                ps@.len() == i,
                forall|k: int| 0 <= k < i ==> (#[trigger] ps@[k])@ == codec::new_player(self.players@[k].name@),
            decreases self.players@.len() - i,
        {
            ps.push(Player::new(self.players[i].name.clone()));
            i = i + 1;
        }
        ps
    }
}

/// A message a client sends in the lobby.
#[allow(non_snake_case)]
pub struct ServerReceivedMsg {
    pub gamecommand: Option<GameCommand>,
    pub newTable: Option<bool>,
    pub ready: Option<bool>,
    pub joinTable: Option<usize>,
    pub changePlayers: Option<usize>,
    pub leaveTable: Option<bool>,
    pub joinLobby: Option<bool>,
    pub namechange: Option<String>,
    pub message: Option<String>,
    pub location: Option<String>,
}

/// What the lobby asks of the server.
pub enum LobbyAction {
    /// Start the game of the table with the given number.
    StartGame(usize),
    /// Hand the command to the game of the table, as coming from the given player.
    Forward { table: usize, player_num: usize, command: GameCommand },
}

/// The connection at position `i` with its readiness set.
pub open spec fn ready_set(cs: Seq<ConnectionView>, i: int, r: bool) -> Seq<ConnectionView> {
    cs.update(i, ConnectionView { ready: r, ..cs[i] })
}

/// Whether every connection at the table is ready.
pub open spec fn all_ready(cs: Seq<ConnectionView>, tl: Option<usize>) -> bool {
    forall|j: int| 0 <= j < cs.len() && (#[trigger] cs[j]).table == tl ==> cs[j].ready
}

/// The connections at the table go into the game.
pub open spec fn start_at(cs: Seq<ConnectionView>, tl: Option<usize>) -> Seq<ConnectionView> {
    cs.map_values(|c: ConnectionView| if c.table == tl { ConnectionView { game_started: true, ..c } } else { c })
}

/// Whether the message starts the game of the sender's table: the sender
/// gets ready, sits at a table, and everyone at that table is then ready.
pub open spec fn starts_game(cs: Seq<ConnectionView>, addr: Seq<char>, msg: ServerReceivedMsg) -> bool {
    &&& msg.newTable is None
    &&& msg.ready == Some(true)
    &&& has_addr(cs, addr)
    &&& cs[addr_at(cs, addr)].table is Some
    &&& all_ready(ready_set(cs, addr_at(cs, addr), true), cs[addr_at(cs, addr)].table)
}

/// The connection at position `i` changed by the message's plain requests.
pub open spec fn plain_change(c: ConnectionView, msg: ServerReceivedMsg) -> ConnectionView {
    if msg.joinTable is Some {
        ConnectionView { table: msg.joinTable, ..c }
    } else if msg.leaveTable is Some {
        ConnectionView { table: None, player_num: None, number_of_player: 3, ..c }
    } else {
        ConnectionView { name: msg.namechange->Some_0@, ..c }
    }
}

/// The connections after the first part of a message: making a table,
/// getting ready (and maybe starting the game), joining a table, changing
/// the seat count of the sender's table, leaving the table, or changing the
/// name; the first of these the message asks for.
pub open spec fn after_requests(cs: Seq<ConnectionView>, addr: Seq<char>, msg: ServerReceivedMsg, ti: usize) -> Seq<ConnectionView> {
    let has = has_addr(cs, addr);
    let i = addr_at(cs, addr);
    if msg.newTable is Some {
        seat_at(cs, addr, ti)
    } else if msg.ready is Some {
        if has {
            let cs1 = ready_set(cs, i, msg.ready->Some_0);
            if starts_game(cs, addr, msg) { start_at(cs1, cs[i].table) } else { cs1 }
        } else {
            cs
        }
    } else if msg.joinTable is Some {
        if has { cs.update(i, plain_change(cs[i], msg)) } else { cs }
    } else if msg.changePlayers is Some {
        let tl = if has { cs[i].table } else { None };
        cs.map_values(|c: ConnectionView| if c.table == tl { ConnectionView { number_of_player: msg.changePlayers->Some_0, ..c } } else { c })
    } else if msg.leaveTable is Some || msg.namechange is Some {
        if has { cs.update(i, plain_change(cs[i], msg)) } else { cs }
    } else {
        cs
    }
}

/// The receivers of a chat message: the connections not in a game for the
/// lobby, else the connections at the sender's table.
pub open spec fn chat_receivers(cs: Seq<ConnectionView>, in_lobby_chat: bool, tl: Option<usize>) -> Seq<ConnectionView>
    decreases cs.len(),
{
    if cs.len() == 0 {
        Seq::empty()
    } else {
        let prev = chat_receivers(cs.drop_last(), in_lobby_chat, tl);
        let c = cs.last();
        if (in_lobby_chat && !c.game_started) || (!in_lobby_chat && c.table == tl) { prev.push(c) } else { prev }
    }
}

/// The chat message for connection `c`.
pub open spec fn is_chat_msg(m: LobbyMsg, c: ConnectionView, text: Seq<char>, location: Seq<char>, sender: Seq<char>) -> bool {
    m matches LobbyMsg::Chat { to, message, location: l, sender: s }
        && to@ == c.addr && message@ == text && l@ == location && s@ == sender
}

/// Whether the table numbers include `t`.
pub open spec fn has_table(tables: Seq<(usize, Table)>, t: usize) -> bool {
    exists|k: int| 0 <= k < tables.len() && (#[trigger] tables[k]).0 == t
}

/// The connections of the lobby, from the view of the table's connections.
pub open spec fn table_view(t: Table) -> (Seq<ConnectionView>, usize) {
    (conns_view(t.players@), t.numberOfPlayer)
}

fn copy_connections(cs: &Vec<Connection>) -> (r: Vec<Connection>)
    ensures
        conns_view(r@) == conns_view(cs@),
{
    let mut r: Vec<Connection> = Vec::new();
    let mut i: usize = 0;
    while i < cs.len()
        invariant
            i <= cs@.len(),
            r@.len() == i,
            forall|k: int| 0 <= k < i ==> (#[trigger] r@[k])@ == cs@[k]@,
        decreases cs@.len() - i,
    {
        r.push(cs[i].duplicate());
        i = i + 1;
    }
    assert(conns_view(r@) =~= conns_view(cs@));
    r
}

/// No two tables share a number.
pub open spec fn distinct_tables(tables: Seq<(usize, Table)>) -> bool {
    forall|a: int, b: int| 0 <= a < tables.len() && 0 <= b < tables.len() && a != b ==> (#[trigger] tables[a]).0 != (#[trigger] tables[b]).0
}

/// Puts the table under its number, in the place of a table with the same number.
fn insert_table(tables: &mut Vec<(usize, Table)>, n: usize, t: Table)
    requires
        distinct_tables(old(tables)@),
    ensures
        distinct_tables(final(tables)@),
        has_table(final(tables)@, n),
        forall|m: usize| m != n ==> (has_table(final(tables)@, m) == has_table(old(tables)@, m)),
        forall|k: int| 0 <= k < final(tables)@.len() && (#[trigger] final(tables)@[k]).0 == n ==> table_view(final(tables)@[k].1) == table_view(t),
{
    let ghost tv = table_view(t);
    let mut i: usize = 0;
    while i < tables.len()
        invariant
            i <= tables@.len(),
            tables@ == old(tables)@,
            tv == table_view(t),
            distinct_tables(tables@),
            forall|k: int| 0 <= k < i ==> (#[trigger] tables@[k]).0 != n,
        decreases tables@.len() - i,
    {
        if tables[i].0 == n {
            let ghost before = tables@;
            tables.set(i, (n, t));
            proof {
                assert forall|m: usize| m != n implies (has_table(tables@, m) == has_table(old(tables)@, m)) by {
                    if has_table(old(tables)@, m) {
                        let k = choose|k: int| 0 <= k < before.len() && (#[trigger] before[k]).0 == m;
                        assert(tables@[k].0 == m);
                    }
                    if has_table(tables@, m) {
                        let k = choose|k: int| 0 <= k < tables@.len() && (#[trigger] tables@[k]).0 == m;
                        assert(before[k].0 == m);
                    }
                }
                assert(tables@[i as int].0 == n);
                assert forall|a: int, b: int| 0 <= a < tables@.len() && 0 <= b < tables@.len() && a != b implies (#[trigger] tables@[a]).0 != (#[trigger] tables@[b]).0 by {
                    assert(before[a].0 == n || a != i ==> tables@[a].0 == before[a].0);
                    assert(before[b].0 == n || b != i ==> tables@[b].0 == before[b].0);
                    assert(before[i as int].0 == n);
                }
                assert(distinct_tables(before));
                assert(table_view(tables@[i as int].1) == tv);
                assert forall|k: int| 0 <= k < tables@.len() && (#[trigger] tables@[k]).0 == n implies table_view(tables@[k].1) == tv by {
                    if k != i {
                        assert(tables@[k] == before[k]);
                        assert(before[k].0 != before[i as int].0);
                    }
                }
            }
            return;
        }
        i = i + 1;
    }
    let ghost before = tables@;
    tables.push((n, t));
    proof {
        assert(tables@[before.len() as int].0 == n);
        assert forall|a: int, b: int| 0 <= a < tables@.len() && 0 <= b < tables@.len() && a != b implies (#[trigger] tables@[a]).0 != (#[trigger] tables@[b]).0 by {
            if a < before.len() && b < before.len() {
                assert(tables@[a] == before[a] && tables@[b] == before[b]);
            } else if a < before.len() {
                assert(tables@[a] == before[a]);
            } else if b < before.len() {
                assert(tables@[b] == before[b]);
            }
        }
        assert forall|m: usize| m != n implies (has_table(tables@, m) == has_table(old(tables)@, m)) by {
            if has_table(old(tables)@, m) {
                let k = choose|k: int| 0 <= k < before.len() && (#[trigger] before[k]).0 == m;
                assert(tables@[k].0 == m);
            }
            if has_table(tables@, m) {
                let k = choose|k: int| 0 <= k < tables@.len() && (#[trigger] tables@[k]).0 == m;
                if k < before.len() {
                    assert(before[k].0 == m);
                }
            }
        }
    }
}

fn find_table(tables: &Vec<(usize, Table)>, n: usize) -> (b: bool)
    ensures
        b == has_table(tables@, n),
{
    let mut i: usize = 0;
    while i < tables.len()
        invariant
            i <= tables@.len(),
            forall|k: int| 0 <= k < i ==> (#[trigger] tables@[k]).0 != n,
        decreases tables@.len() - i,
    {
        if tables[i].0 == n {
            return true;
        }
        i = i + 1;
    }
    false
}


/// Whether every connection at the table is ready.
fn every_ready(cs: &Vec<Connection>, tl: Option<usize>) -> (b: bool)
    ensures
        b == all_ready(conns_view(cs@), tl),
{
    let ghost v = conns_view(cs@);
    let mut i: usize = 0;
    while i < cs.len()
        invariant
            i <= cs@.len(),
            v == conns_view(cs@),
            forall|j: int| 0 <= j < i && (#[trigger] v[j]).table == tl ==> v[j].ready,
        decreases cs@.len() - i,
    {
        if cs[i].table == tl && !cs[i].ready {
            assert(v[i as int].table == tl && !v[i as int].ready);
            return false;
        }
        i = i + 1;
    }
    true
}

/// The connection at position `i` with its fields set as `f` says.
fn set_connection(cs: &mut Vec<Connection>, i: usize, c: Connection)
    requires
        i < old(cs)@.len(),
        c@.addr == old(cs)@[i as int]@.addr,
        distinct_addrs(conns_view(old(cs)@)),
    ensures
        conns_view(final(cs)@) == conns_view(old(cs)@).update(i as int, c@),
        distinct_addrs(conns_view(final(cs)@)),
{
    let ghost v = conns_view(cs@);
    cs.set(i, c);
    proof {
        let w = conns_view(cs@);
        assert(w =~= v.update(i as int, c@));
        assert forall|a: int, b: int| 0 <= a < w.len() && 0 <= b < w.len() && a != b implies (#[trigger] w[a]).addr != (#[trigger] w[b]).addr by {
            assert(w[a].addr == v[a].addr && w[b].addr == v[b].addr);
        }
    }
}

impl Lobby {
    /// The first part of a message: the first of its requests among making a
    /// table, getting ready, joining a table, changing the seat count,
    /// leaving the table and changing the name. Gives the game started, if any.
    fn apply_requests(&mut self, idx: Option<usize>, addr: &String, msg: &ServerReceivedMsg, tables: &mut Vec<(usize, Table)>, out: &mut Vec<LobbyMsg>) -> (started: Option<usize>)
        requires
            old(self).wf(),
            old(self).table_index <= usize::MAX / 2,
            distinct_tables(old(tables)@),
            match idx {
                Some(i) => has_addr(conns_view(old(self).connections@), addr@) && i == addr_at(conns_view(old(self).connections@), addr@),
                None => !has_addr(conns_view(old(self).connections@), addr@),
            },
        ensures
            final(self).wf(),
            distinct_tables(final(tables)@),
            ({
                let cs0 = conns_view(old(self).connections@);
                let a = addr@;
                let has = has_addr(cs0, a);
                let i = addr_at(cs0, a);
                let cs1 = after_requests(cs0, a, *msg, old(self).table_index);
                let ti0 = old(self).table_index;
                &&& conns_view(final(self).connections@) == cs1
                &&& final(self).table_index == if msg.newTable is Some && has { next_index(open_tables(cs1), ti0, ti0 as nat) } else { ti0 as int }
                &&& if starts_game(cs0, a, *msg) {
                    let tn = cs0[i].table->Some_0;
                    &&& started == Some(tn)
                    &&& has_table(final(tables)@, tn)
                    &&& forall|m: usize| m != tn ==> (has_table(final(tables)@, m) == has_table(old(tables)@, m))
                    &&& forall|k: int| 0 <= k < final(tables)@.len() && (#[trigger] final(tables)@[k]).0 == tn
                        ==> table_view(final(tables)@[k].1) == (ready_set(cs0, i, true), cs0[i].number_of_player)
                } else {
                    &&& started is None
                    &&& final(tables)@ == old(tables)@
                }
                &&& final(out)@.len() >= old(out)@.len()
                &&& final(out)@.subrange(0, old(out)@.len() as int) == old(out)@
                &&& if msg.newTable is Some && has {
                    is_tables_broadcast(final(out)@.subrange(old(out)@.len() as int, final(out)@.len() as int), cs1)
                } else {
                    final(out)@ == old(out)@
                }
            }),
    {
        let ghost cs0 = conns_view(self.connections@);
        let ghost ti0 = self.table_index;
        let mut started: Option<usize> = None;
        if msg.newTable.is_some() {
            if let Some(i) = idx {
                let con = self.connections[i].duplicate();
                self.make_table(&con, out);
            }
        } else if msg.ready.is_some() {
            let r = match msg.ready { Some(x) => x, None => false };
            if let Some(i) = idx {
                let tl = self.connections[i].table;
                let nop = self.connections[i].number_of_player;
                let mut c = self.connections[i].duplicate();
                c.ready = r;
                set_connection(&mut self.connections, i, c);
                let ghost cs1 = conns_view(self.connections@);
                assert(cs1 == ready_set(cs0, i as int, r));
                if r {
                    if let Some(tn) = tl {
                        if every_ready(&self.connections, tl) {
                            let vec_z = copy_connections(&self.connections);
                            insert_table(tables, tn, Table::new(vec_z, nop));
                            started = Some(tn);
                            let mut j: usize = 0;
                            while j < self.connections.len()
                                invariant
                                    j <= self.connections@.len(),
                                    self.connections@.len() == cs1.len(),
                                    self.table_index == ti0,
                                    forall|k: int| 0 <= k < j ==> (#[trigger] self.connections@[k])@ == start_at(cs1, tl)[k],
                                    forall|k: int| j <= k < cs1.len() ==> (#[trigger] self.connections@[k])@ == cs1[k],
                                decreases self.connections@.len() - j,
                            {
                                if self.connections[j].table == tl {
                                    let ghost before = self.connections@;
                                    let mut c2 = self.connections[j].duplicate();
                                    c2.game_started = true;
                                    self.connections.set(j, c2);
                                    assert(forall|k: int| 0 <= k < before.len() && k != j ==> self.connections@[k] == before[k]);
                                }
                                j = j + 1;
                            }
                            proof {
                                let w = conns_view(self.connections@);
                                assert(w =~= start_at(cs1, tl));
                                assert forall|a: int, b: int| 0 <= a < w.len() && 0 <= b < w.len() && a != b implies (#[trigger] w[a]).addr != (#[trigger] w[b]).addr by {
                                    assert(w[a].addr == cs1[a].addr && w[b].addr == cs1[b].addr);
                                }
                            }
                        }
                    }
                }
            }
        } else if msg.joinTable.is_some() {
            if let Some(i) = idx {
                let mut c = self.connections[i].duplicate();
                c.table = msg.joinTable;
                set_connection(&mut self.connections, i, c);
            }
        } else if msg.changePlayers.is_some() {
            let n = match msg.changePlayers { Some(x) => x, None => 0 };
            let tl = match idx { Some(i) => self.connections[i].table, None => None };
            let mut j: usize = 0;
            while j < self.connections.len()
                invariant
                    j <= self.connections@.len(),
                    self.connections@.len() == cs0.len(),
                    self.table_index == ti0,
                    forall|k: int| 0 <= k < j ==> (#[trigger] self.connections@[k])@ == (if cs0[k].table == tl { ConnectionView { number_of_player: n, ..cs0[k] } } else { cs0[k] }),
                    forall|k: int| j <= k < cs0.len() ==> (#[trigger] self.connections@[k])@ == cs0[k],
                decreases self.connections@.len() - j,
            {
                if self.connections[j].table == tl {
                    let ghost before = self.connections@;
                    let mut c2 = self.connections[j].duplicate();
                    c2.number_of_player = n;
                    self.connections.set(j, c2);
                    assert(forall|k: int| 0 <= k < before.len() && k != j ==> self.connections@[k] == before[k]);
                }
                j = j + 1;
            }
            proof {
                let w = conns_view(self.connections@);
                assert(w =~= cs0.map_values(|c: ConnectionView| if c.table == tl { ConnectionView { number_of_player: n, ..c } } else { c }));
                assert forall|a: int, b: int| 0 <= a < w.len() && 0 <= b < w.len() && a != b implies (#[trigger] w[a]).addr != (#[trigger] w[b]).addr by {
                    assert(w[a].addr == cs0[a].addr && w[b].addr == cs0[b].addr);
                }
            }
        } else if msg.leaveTable.is_some() {
            if let Some(i) = idx {
                let mut c = self.connections[i].duplicate();
                c.table = None;
                c.player_num = None;
                c.number_of_player = 3;
                set_connection(&mut self.connections, i, c);
            }
        } else if let Some(nm) = &msg.namechange {
            if let Some(i) = idx {
                let mut c = self.connections[i].duplicate();
                c.name = nm.clone();
                set_connection(&mut self.connections, i, c);
            }
        }
        proof {
            outbox_refl(out@);
        }
        started
    }
}

proof fn lemma_after_requests_len(cs: Seq<ConnectionView>, addr: Seq<char>, msg: ServerReceivedMsg, ti: usize)
    ensures
        after_requests(cs, addr, msg, ti).len() == cs.len(),
{
}

proof fn outbox_refl(a: Seq<LobbyMsg>)
    ensures
        a.subrange(0, a.len() as int) == a,
{
    assert(a.subrange(0, a.len() as int) =~= a);
}


/// Whether `ms` is the chat message to each receiver, in order.
pub open spec fn is_chat_broadcast(ms: Seq<LobbyMsg>, rs: Seq<ConnectionView>, text: Seq<char>, location: Seq<char>, sender: Seq<char>) -> bool {
    &&& ms.len() == rs.len()
    &&& forall|k: int| 0 <= k < ms.len() ==> is_chat_msg(#[trigger] ms[k], rs[k], text, location, sender)
}

/// Whether the location of a chat message is the lobby.
fn is_lobby(location: &String) -> (b: bool)
    ensures
        b == (location@ == "lobby"@),
{
    let lobby = codec::owned("lobby");
    *location == lobby
}

fn send_chat(cs: &Vec<Connection>, in_lobby_chat: bool, tl: Option<usize>, text: &String, location: &String, sender: &String, out: &mut Vec<LobbyMsg>)
    ensures
        final(out)@.len() >= old(out)@.len(),
        final(out)@.subrange(0, old(out)@.len() as int) == old(out)@,
        is_chat_broadcast(final(out)@.subrange(old(out)@.len() as int, final(out)@.len() as int),
            chat_receivers(conns_view(cs@), in_lobby_chat, tl), text@, location@, sender@),
{
    let ghost v = conns_view(cs@);
    let ghost o0 = out@;
    let mut i: usize = 0;
    while i < cs.len()
        invariant
            i <= cs@.len(),
            v == conns_view(cs@),
            out@.len() >= o0.len(),
            out@.subrange(0, o0.len() as int) == o0,
            is_chat_broadcast(out@.subrange(o0.len() as int, out@.len() as int), chat_receivers(v.subrange(0, i as int), in_lobby_chat, tl), text@, location@, sender@),
        decreases cs@.len() - i,
    {
        assert(v.subrange(0, i + 1).drop_last() =~= v.subrange(0, i as int));
        let ghost before = out@;
        if (in_lobby_chat && !cs[i].game_started) || (!in_lobby_chat && cs[i].table == tl) {
            let m = LobbyMsg::Chat { to: cs[i].addr.clone(), message: text.clone(), location: location.clone(), sender: sender.clone() };
            out.push(m);
            proof {
                assert(out@.subrange(0, o0.len() as int) =~= before.subrange(0, o0.len() as int));
                let t0 = before.subrange(o0.len() as int, before.len() as int);
                let t1 = out@.subrange(o0.len() as int, out@.len() as int);
                assert(t1 =~= t0.push(m));
                let r1 = chat_receivers(v.subrange(0, i + 1), in_lobby_chat, tl);
                assert(r1 == chat_receivers(v.subrange(0, i as int), in_lobby_chat, tl).push(v[i as int]));
                assert forall|k: int| 0 <= k < t1.len() implies is_chat_msg(#[trigger] t1[k], r1[k], text@, location@, sender@) by {
                    if k < t0.len() {
                        assert(t1[k] == t0[k]);
                    }
                }
            }
        }
        i = i + 1;
    }
    assert(v.subrange(0, v.len() as int) =~= v);
}

/// Whether a message hands its game command to a game: it carries no chat,
/// it has a game command, and its sender is seated in a started game whose
/// table is known.
pub open spec fn forwards(cs1: Seq<ConnectionView>, has: bool, i: int, msg: ServerReceivedMsg, tables: Seq<(usize, Table)>) -> bool {
    &&& !(msg.message is Some && msg.location is Some)
    &&& msg.gamecommand is Some
    &&& has
    &&& cs1[i].table is Some
    &&& cs1[i].player_num is Some
    &&& cs1[i].game_started
    &&& has_table(tables, cs1[i].table->Some_0)
}

impl Lobby {
    /// Handles a message of the connection at `addr`.
    ///
    /// First the first of its requests among making a table, getting ready
    /// (which starts the table's game once everyone there is ready), joining
    /// a table, changing the seat count of the sender's table, leaving the
    /// table and changing the name. Then a chat message is passed on, to the
    /// connections not in a game for the lobby or else to those at the
    /// sender's table; or else a game command is handed to the sender's
    /// game. Gives what the server is to do: start a game, hand on a command.
    pub fn from_json(&mut self, addr: &String, msg: ServerReceivedMsg, tables: &mut Vec<(usize, Table)>, out: &mut Vec<LobbyMsg>) -> (actions: Vec<LobbyAction>)
        requires
            old(self).wf(),
            old(self).table_index <= usize::MAX / 2,
            distinct_tables(old(tables)@),
        ensures
            final(self).wf(),
            distinct_tables(final(tables)@),
            ({
                let cs0 = conns_view(old(self).connections@);
                let a = addr@;
                let has = has_addr(cs0, a);
                let i = addr_at(cs0, a);
                let cs1 = after_requests(cs0, a, msg, old(self).table_index);
                let ti0 = old(self).table_index;
                let start = (old(out)@.len() + if msg.newTable is Some && has { in_lobby(cs1).len() } else { 0 }) as int;
                let tn = cs0[i].table->Some_0;
                &&& conns_view(final(self).connections@) == cs1
                &&& final(self).table_index == if msg.newTable is Some && has { next_index(open_tables(cs1), ti0, ti0 as nat) } else { ti0 as int }
                &&& if starts_game(cs0, a, msg) {
                    &&& has_table(final(tables)@, tn)
                    &&& forall|m: usize| m != tn ==> (has_table(final(tables)@, m) == has_table(old(tables)@, m))
                    &&& forall|k: int| 0 <= k < final(tables)@.len() && (#[trigger] final(tables)@[k]).0 == tn
                        ==> table_view(final(tables)@[k].1) == (ready_set(cs0, i, true), cs0[i].number_of_player)
                } else {
                    final(tables)@ == old(tables)@
                }
                &&& final(out)@.len() >= start
                &&& final(out)@.subrange(0, old(out)@.len() as int) == old(out)@
                &&& msg.newTable is Some && has ==> is_tables_broadcast(final(out)@.subrange(old(out)@.len() as int, start), cs1)
                &&& if msg.message is Some && msg.location is Some {
                    is_chat_broadcast(final(out)@.subrange(start, final(out)@.len() as int),
                        chat_receivers(cs1, msg.location->Some_0@ == "lobby"@, if has { cs1[i].table } else { None }),
                        msg.message->Some_0@, msg.location->Some_0@, if has { cs1[i].name } else { "defaultname"@ })
                } else {
                    final(out)@.len() == start
                }
                &&& actions@ == (if starts_game(cs0, a, msg) { seq![LobbyAction::StartGame(tn)] } else { Seq::empty() })
                    + (if forwards(cs1, has, i, msg, final(tables)@) {
                        seq![LobbyAction::Forward { table: cs1[i].table->Some_0, player_num: cs1[i].player_num->Some_0, command: msg.gamecommand->Some_0 }]
                    } else {
                        Seq::empty()
                    })
            }),
    {
        let ghost cs0 = conns_view(self.connections@);
        let ghost o0 = out@;
        let idx = find_addr(&self.connections, addr);
        let started = self.apply_requests(idx, addr, &msg, tables, out);
        let ghost o1 = out@;
        let mut actions: Vec<LobbyAction> = Vec::new();
        if let Some(tn) = started {
            actions.push(LobbyAction::StartGame(tn));
        }
        let ghost a1 = actions@;
        let ghost cs1 = conns_view(self.connections@);
        proof {
            lemma_after_requests_len(cs0, addr@, msg, old(self).table_index);
            assert(self.connections@.len() == cs1.len());
        }
        if msg.message.is_some() && msg.location.is_some() {
            let text = match &msg.message { Some(t) => t.clone(), None => String::new() };
            let location = match &msg.location { Some(l) => l.clone(), None => String::new() };
            let (table_n, sender_n) = match idx {
                Some(i) => (self.connections[i].table, self.connections[i].name.clone()),
                None => (None, codec::owned("defaultname")),
            };
            let lobby_chat = is_lobby(&location);
            send_chat(&self.connections, lobby_chat, table_n, &text, &location, &sender_n, out);
        } else {
            let ghost gc = msg.gamecommand;
            if let Some(command) = msg.gamecommand {
                if let Some(i) = idx {
                    let t = self.connections[i].table;
                    let pn = self.connections[i].player_num;
                    let gs = self.connections[i].game_started;
                    if let (Some(table_num), Some(player_num), true) = (t, pn, gs) {
                        if find_table(tables, table_num) {
                            actions.push(LobbyAction::Forward { table: table_num, player_num, command });
                        }
                    }
                }
            }
        }
        proof {
            outbox_refl(out@);
            let a = addr@;
            let has = has_addr(cs0, a);
            let i = addr_at(cs0, a);
            let start = (o0.len() + if msg.newTable is Some && has { in_lobby(cs1).len() } else { 0 }) as int;
            assert(o1.len() == start);
            assert(out@.len() >= start);
            assert(out@.subrange(0, o1.len() as int) == o1);
            assert(out@.subrange(o0.len() as int, start) =~= o1.subrange(o0.len() as int, o1.len() as int));
            assert(out@.subrange(0, o0.len() as int) =~= o1.subrange(0, o0.len() as int));
            if msg.message is Some && msg.location is Some {
                assert(is_chat_broadcast(out@.subrange(start, out@.len() as int),
                        chat_receivers(cs1, msg.location->Some_0@ == "lobby"@, if has { cs1[i].table } else { None }),
                        msg.message->Some_0@, msg.location->Some_0@, if has { cs1[i].name } else { "defaultname"@ }));
            } else {
                assert(out@.len() == start);
            }
            assert(actions@ == (if starts_game(cs0, a, msg) { seq![LobbyAction::StartGame(cs0[i].table->Some_0)] } else { Seq::empty() })
                    + (if forwards(cs1, has, i, msg, tables@) {
                        seq![LobbyAction::Forward { table: cs1[i].table->Some_0, player_num: cs1[i].player_num->Some_0, command: msg.gamecommand->Some_0 }]
                    } else {
                        Seq::empty()
                    }));
        }
        actions
    }
}

} // verus!
