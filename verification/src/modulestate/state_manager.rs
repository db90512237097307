//! The modules plugged into the mainboard's boards, by id.
use vstd::prelude::*;

verus! {

/// A module plugged at `port` of the board `board` reached at `board_addr`.
pub struct MainboardConnectedModule {
    pub port: i32,
    pub id: String,
    pub board: String,
    pub board_addr: String,
}

impl MainboardConnectedModule {
    pub fn clone_value(&self) -> (r: MainboardConnectedModule)
        ensures
            r.port == self.port,
            r.id@ == self.id@,
            r.board@ == self.board@,
            r.board_addr@ == self.board_addr@,
    {
        MainboardConnectedModule {
            port: self.port,
            id: self.id.clone(),
            board: self.board.clone(),
            board_addr: self.board_addr.clone(),
        }
    }
}

/// The ids of a list of modules, in order.
pub open spec fn module_ids(s: Seq<MainboardConnectedModule>) -> Seq<Seq<char>> {
    s.map_values(|m: MainboardConnectedModule| m.id@)
}

/// A module sits at `port` of the board `board` at `board_addr`.
pub open spec fn sits_at(m: MainboardConnectedModule, board: Seq<char>, board_addr: Seq<char>, port: i32) -> bool {
    m.port == port && m.board@ == board && m.board_addr@ == board_addr
}

/// The connected modules; an id occurs once.
pub struct MainboardModuleStateManager {
    pub connected_module: Vec<MainboardConnectedModule>,
}

impl MainboardModuleStateManager {
    pub open spec fn well_formed(&self) -> bool {
        module_ids(self.connected_module@).no_duplicates()
    }

    pub open spec fn ids(&self) -> Seq<Seq<char>> {
        module_ids(self.connected_module@)
    }

    pub fn new() -> (r: MainboardModuleStateManager)
        ensures
            r.connected_module@.len() == 0,
            r.well_formed(),
    {
        let r = MainboardModuleStateManager { connected_module: Vec::new() };
        assert(module_ids(r.connected_module@) =~= Seq::<Seq<char>>::empty());
        r
    }

    /// Whether no id occurs twice.
    pub fn has_unique_ids(&self) -> (r: bool)
        ensures
            r == self.well_formed(),
    {
        let mut ids: Vec<&str> = Vec::new();
        let mut i: usize = 0;
        while i < self.connected_module.len()
            invariant
                i <= self.connected_module@.len(),
                ids@.len() == i,
                forall|j: int| 0 <= j < i ==> (#[trigger] ids@[j])@ == self.connected_module@[j].id@,
            decreases self.connected_module@.len() - i,
        {
            ids.push(self.connected_module[i].id.as_str());
            i = i + 1;
        }
        assert(ids@.map_values(|s: &str| s@) =~= self.ids());
        crate::text::texts_unique(&ids)
    }

    /// The position of the module with this id.
    fn index_of(&self, id: &str) -> (r: Option<usize>)
        ensures
            match r {
                Some(i) => i < self.connected_module@.len() && self.connected_module@[i as int].id@ == id@,
                None => !self.ids().contains(id@),
            },
    {
        let mut i: usize = 0;
        while i < self.connected_module.len()
            invariant
                i <= self.connected_module@.len(),
                forall|j: int| 0 <= j < i ==> self.connected_module@[j].id@ != id@,
            decreases self.connected_module@.len() - i,
        {
            if crate::text::str_eq(self.connected_module[i].id.as_str(), id) {
                return Some(i);
            }
            i = i + 1;
        }
        proof {
            if self.ids().contains(id@) {
                let j = choose|j: int| 0 <= j < self.ids().len() && self.ids()[j] == id@;
                assert(self.connected_module@[j].id@ == id@);
            }
        }
        None
    }

    /// The module plugged at `port` of the given board, if one is.
    pub fn get_module_at_index(&self, board: &String, board_addr: &String, port: i32) -> (r: Option<&MainboardConnectedModule>)
        ensures
            match r {
                Some(m) => sits_at(*m, board@, board_addr@, port) && self.connected_module@.contains(*m),
                None => forall|j: int| 0 <= j < self.connected_module@.len()
                    ==> !sits_at(#[trigger] self.connected_module@[j], board@, board_addr@, port),
            },
    {
        let mut i: usize = 0;
        while i < self.connected_module.len()
            invariant
                i <= self.connected_module@.len(),
                forall|j: int| 0 <= j < i ==> !sits_at(#[trigger] self.connected_module@[j], board@, board_addr@, port),
            decreases self.connected_module@.len() - i,
        {
            let m = &self.connected_module[i];
            if m.port == port && crate::text::str_eq(m.board.as_str(), board.as_str())
                && crate::text::str_eq(m.board_addr.as_str(), board_addr.as_str()) {
                assert(self.connected_module@[i as int] == *m);
                return Some(m);
            }
            i = i + 1;
        }
        None
    }

    /// The position of the first module plugged at `port` of the given board.
    fn index_at(&self, board: &String, board_addr: &String, port: i32) -> (r: Option<usize>)
        ensures
            match r {
                Some(i) => i < self.connected_module@.len()
                    && sits_at(self.connected_module@[i as int], board@, board_addr@, port),
                None => forall|j: int| 0 <= j < self.connected_module@.len()
                    ==> !sits_at(#[trigger] self.connected_module@[j], board@, board_addr@, port),
            },
    {
        let mut i: usize = 0;
        while i < self.connected_module.len()
            invariant
                i <= self.connected_module@.len(),
                forall|j: int| 0 <= j < i ==> !sits_at(#[trigger] self.connected_module@[j], board@, board_addr@, port),
            decreases self.connected_module@.len() - i,
        {
            let m = &self.connected_module[i];
            if m.port == port && crate::text::str_eq(m.board.as_str(), board.as_str())
                && crate::text::str_eq(m.board_addr.as_str(), board_addr.as_str()) {
                return Some(i);
            }
            i = i + 1;
        }
        None
    }

    /// The module plugged at `port` of the given board, if one is, to be changed in place:
    /// what is written through the reference replaces that module and nothing else.
    pub fn get_module_at_index_mut(&mut self, board: &String, board_addr: &String, port: i32)
        -> (r: Option<&mut MainboardConnectedModule>)
        ensures
            match r {
                Some(m) => exists|j: int| 0 <= j < old(self).connected_module@.len()
                    && sits_at(old(self).connected_module@[j], board@, board_addr@, port)
                    && *m == old(self).connected_module@[j]
                    && final(self).connected_module@ == old(self).connected_module@.update(j, *final(m)),
                None => {
                    &&& forall|j: int| 0 <= j < old(self).connected_module@.len()
                        ==> !sits_at(#[trigger] old(self).connected_module@[j], board@, board_addr@, port)
                    &&& final(self).connected_module@ == old(self).connected_module@
                },
            },
    {
        match self.index_at(board, board_addr, port) {
            Some(i) => Some(&mut self.connected_module[i]),
            None => None,
        }
    }

    /// The module with this id, if it is connected.
    pub fn get_module(&self, id: &str) -> (r: Option<&MainboardConnectedModule>)
        ensures
            match r {
                Some(m) => m.id@ == id@ && self.connected_module@.contains(*m),
                None => !self.ids().contains(id@),
            },
    {
        match self.index_of(id) {
            Some(i) => {
                assert(self.connected_module@[i as int] == self.connected_module[i as int]);
                Some(&self.connected_module[i])
            },
            None => None,
        }
    }

    /// The ids of the connected modules.
    pub fn get_connected_modules(&self) -> (r: Vec<String>)
        ensures
            r@.map_values(|s: String| s@) == self.ids(),
    {
        let mut r: Vec<String> = Vec::new();
        let mut i: usize = 0;
        while i < self.connected_module.len()
            invariant
                i <= self.connected_module@.len(),
                r@.len() == i,
                forall|j: int| 0 <= j < i ==> (#[trigger] r@[j])@ == self.connected_module@[j].id@,
            decreases self.connected_module@.len() - i,
        {
            r.push(self.connected_module[i].id.clone());
            i = i + 1;
        }
        assert(r@.map_values(|s: String| s@) =~= self.ids());
        r
    }

    /// Registers a module that just connected; one already registered under its id is
    /// replaced.
    pub fn insert_module(&mut self, m: MainboardConnectedModule)
        requires
            old(self).well_formed(),
        ensures
            final(self).well_formed(),
            old(self).ids().contains(m.id@) ==> exists|i: int| 0 <= i < old(self).connected_module@.len()
                && old(self).connected_module@[i].id@ == m.id@
                && final(self).connected_module@ == old(self).connected_module@.update(i, m),
            !old(self).ids().contains(m.id@) ==> final(self).connected_module@ == old(self).connected_module@.push(m),
    {
        let ghost old_ids = self.ids();
        match self.index_of(m.id.as_str()) {
            Some(i) => {
                proof {
                    assert(old_ids[i as int] == m.id@);
                }
                self.connected_module.set(i, m);
                proof {
                    assert(self.ids() =~= old_ids);
                }
            },
            None => {
                self.connected_module.push(m);
                proof {
                    assert(self.ids() =~= old_ids.push(m.id@));
                }
            },
        }
    }

    /// Forgets the module with this id, returning it if it was connected.
    pub fn remove_module(&mut self, id: &str) -> (r: Option<MainboardConnectedModule>)
        requires
            old(self).well_formed(),
        ensures
            final(self).well_formed(),
            !final(self).ids().contains(id@),
            match r {
                Some(m) => m.id@ == id@ && exists|i: int| 0 <= i < old(self).connected_module@.len()
                    && old(self).connected_module@[i] == m
                    && final(self).connected_module@ == old(self).connected_module@.remove(i),
                None => !old(self).ids().contains(id@) && final(self).connected_module@ == old(self).connected_module@,
            },
    {
        let ghost old_ids = self.ids();
        match self.index_of(id) {
            Some(i) => {
                let m = self.connected_module.remove(i);
                proof {
                    assert(self.ids() =~= old_ids.remove(i as int));
                    assert forall|j: int| 0 <= j < self.ids().len() implies self.ids()[j] != id@ by {
                        if j < i {
                            assert(old_ids[j] != old_ids[i as int]);
                        } else {
                            assert(old_ids[j + 1] != old_ids[i as int]);
                        }
                    }
                }
                Some(m)
            },
            None => None,
        }
    }
}

} // verus!
