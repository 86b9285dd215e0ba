use vstd::prelude::*;

verus! {

/// The number of program shortcuts a configuration offers.
pub const PROGRAM_SLOTS: usize = 10;

/// The user's configuration: the program started by each shortcut (an empty
/// path leaves the shortcut unused) and named key settings.
pub struct Config {
    pub programs: Vec<String>,
    pub keybinds: Vec<(String, u32)>,
}

/// The names of the key settings, in order.
pub open spec fn keybind_names(keybinds: Seq<(String, u32)>) -> Seq<Seq<char>> {
    keybinds.map_values(|p: (String, u32)| p.0@)
}

/// The key settings as name and value, in order.
pub open spec fn keybind_entries(keybinds: Seq<(String, u32)>) -> Seq<(Seq<char>, u32)> {
    keybinds.map_values(|p: (String, u32)| (p.0@, p.1))
}

impl Config {
    /// No key setting is named twice.
    pub open spec fn well_formed(&self) -> bool {
        keybind_names(self.keybinds@).no_duplicates()
    }

    /// The configuration used where none can be read: ten unused shortcuts
    /// and the six key settings left, right, down, next, prev and above, each 0.
    pub open spec fn is_default(&self) -> bool {
        &&& self.programs@.len() == PROGRAM_SLOTS
        &&& forall|i: int| 0 <= i < self.programs@.len() ==> #[trigger] self.programs@[i]@ == Seq::<char>::empty()
        &&& keybind_entries(self.keybinds@) == seq![
            ("left"@, 0u32),
            ("right"@, 0u32),
            ("down"@, 0u32),
            ("next"@, 0u32),
            ("prev"@, 0u32),
            ("above"@, 0u32),
        ]
    }

    /// The default configuration.
    pub fn new() -> (config: Config)
        ensures
            config.is_default(),
            config.well_formed(),
    {
        let mut keybinds: Vec<(String, u32)> = Vec::new();
        keybinds.push(("left".to_string(), 0));
        keybinds.push(("right".to_string(), 0));
        keybinds.push(("down".to_string(), 0));
        keybinds.push(("next".to_string(), 0));
        keybinds.push(("prev".to_string(), 0));
        keybinds.push(("above".to_string(), 0));
        let mut programs: Vec<String> = Vec::new();
        let mut i: usize = 0;
        while i < PROGRAM_SLOTS
            invariant
                i <= PROGRAM_SLOTS,
                programs@.len() == i,
                forall|j: int| 0 <= j < i ==> #[trigger] programs@[j]@ == Seq::<char>::empty(),
            decreases PROGRAM_SLOTS - i,
        {
            programs.push(String::new());
            i = i + 1;
        }
        let config = Config { programs, keybinds };
        proof {
            reveal_strlit("left");
            reveal_strlit("right");
            reveal_strlit("down");
            reveal_strlit("next");
            reveal_strlit("prev");
            reveal_strlit("above");
            assert(keybind_entries(config.keybinds@) =~= seq![
                ("left"@, 0u32),
                ("right"@, 0u32),
                ("down"@, 0u32),
                ("next"@, 0u32),
                ("prev"@, 0u32),
                ("above"@, 0u32),
            ]);
            let names = keybind_names(config.keybinds@);
            assert(names =~= seq!["left"@, "right"@, "down"@, "next"@, "prev"@, "above"@]);
            assert forall|a: int, b: int| 0 <= a < names.len() && 0 <= b < names.len() && a != b
                implies names[a] != names[b] by {
                if names[a] == names[b] {
                    assert(names[a][0] == names[b][0]);
                    assert(names[a].len() == names[b].len());
                    if names[a].len() > 1 {
                        assert(names[a][1] == names[b][1]);
                    }
                }
            }
        }
        config
    }

    /// The configuration read from the user's file: the parsed one where the
    /// file parsed, the default one where it did not.
    pub fn from_parsed(parsed: Option<Config>) -> (config: Config)
        ensures
            match parsed {
                Some(c) => config == c,
                None => config.is_default() && config.well_formed(),
            },
    {
        match parsed {
            Some(c) => c,
            None => Config::new(),
        }
    }
}

} // verus!
