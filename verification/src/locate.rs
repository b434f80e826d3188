//! Where the `adb` program is looked for: on the search path first, then where
//! it is usually installed, then in the directories that the environment names.
use crate::text;
use vstd::prelude::*;
use vstd::string::*;

verus! {

/// A variable of the environment that may name the directory of the Android SDK.
#[derive(Debug, Clone, Copy, PartialEq, Eq, Structural)]
pub enum Root {
    AndroidHome,
    AndroidSdkRoot,
}

/// The name of the variable.
pub open spec fn root_name(root: Root) -> Seq<char> {
    match root {
        Root::AndroidHome => "ANDROID_HOME"@,
        Root::AndroidSdkRoot => "ANDROID_SDK_ROOT"@,
    }
}

impl Root {
    /// The name of the variable.
    pub fn name(self) -> (name: &'static str)
        ensures
            name@ == root_name(self),
    {
        match self {
            Root::AndroidHome => "ANDROID_HOME",
            Root::AndroidSdkRoot => "ANDROID_SDK_ROOT",
        }
    }
}

/// A place where the program may be.
pub enum Place {
    /// The file of this name in the directory that stands at this position of the
    /// search path.
    OnPath(usize, String),
    /// The file at this path.
    At(String),
    /// The file that is reached from the directory that the variable names by
    /// these steps.
    Under(Root, Vec<String>),
}

/// The text of a [`Place`].
pub enum PlaceView {
    OnPath(usize, Seq<char>),
    At(Seq<char>),
    Under(Root, Seq<Seq<char>>),
}

impl View for Place {
    type V = PlaceView;

    open spec fn view(&self) -> PlaceView {
        match *self {
            Place::OnPath(dir, file) => PlaceView::OnPath(dir, file@),
            Place::At(path) => PlaceView::At(path@),
            Place::Under(root, steps) => PlaceView::Under(root, text::texts(steps@)),
        }
    }
}

/// The file name of the program.
pub open spec fn program(windows: bool) -> Seq<char> {
    if windows {
        "adb.exe"@
    } else {
        "adb"@
    }
}

/// The file name of the program.
pub fn adb_exe(windows: bool) -> (name: &'static str)
    ensures
        name@ == program(windows),
{
    if windows {
        "adb.exe"
    } else {
        "adb"
    }
}

/// Where the program is usually installed.
pub open spec fn usual_paths() -> Seq<Seq<char>> {
    seq![
        "C:\\Program Files\\Android\\platform-tools\\adb.exe"@,
        "C:\\Users\\SENTHILKUMARAN\\AppData\\Local\\Android\\Sdk\\platform-tools\\adb.exe"@,
        "/opt/android-sdk/platform-tools/adb"@,
        "/usr/bin/adb"@,
        "/opt/homebrew/bin/adb"@,
        "/usr/local/bin/adb"@,
    ]
}

/// One of the paths where the program is usually installed.
fn usual_path(i: usize) -> (path: &'static str)
    requires
        i < 6,
    ensures
        path@ == usual_paths()[i as int],
{
    if i == 0 {
        "C:\\Program Files\\Android\\platform-tools\\adb.exe"
    } else if i == 1 {
        "C:\\Users\\SENTHILKUMARAN\\AppData\\Local\\Android\\Sdk\\platform-tools\\adb.exe"
    } else if i == 2 {
        "/opt/android-sdk/platform-tools/adb"
    } else if i == 3 {
        "/usr/bin/adb"
    } else if i == 4 {
        "/opt/homebrew/bin/adb"
    } else {
        "/usr/local/bin/adb"
    }
}

/// The roots whose variables are set, in the order in which they are tried.
pub open spec fn roots(home: bool, sdk_root: bool) -> Seq<Root> {
    (if home {
        seq![Root::AndroidHome]
    } else {
        seq![]
    }) + (if sdk_root {
        seq![Root::AndroidSdkRoot]
    } else {
        seq![]
    })
}

/// Where the program is looked for, in order. The search path has `dirs`
/// entries; `home` and `sdk_root` say which variables are set.
pub open spec fn places(windows: bool, dirs: usize, home: bool, sdk_root: bool) -> Seq<PlaceView> {
    Seq::new(dirs as nat, |i: int| PlaceView::OnPath(i as usize, program(windows)))
        + usual_paths().map_values(|p: Seq<char>| PlaceView::At(p)) + roots(
        home,
        sdk_root,
    ).map_values(
        |r: Root| PlaceView::Under(r, seq!["platform-tools"@, program(windows)]),
    )
}

/// What is to be done next about the search.
pub enum Search {
    /// See whether there is a file at this place.
    Probe(Place),
    /// Nothing: the program is here.
    Found(Place),
    /// Nothing: the program was not found.
    NotFound,
}

/// The contents of a [`Search`].
pub enum SearchView {
    Probe(PlaceView),
    Found(PlaceView),
    NotFound,
}

impl View for Search {
    type V = SearchView;

    open spec fn view(&self) -> SearchView {
        match *self {
            Search::Probe(place) => SearchView::Probe(place@),
            Search::Found(place) => SearchView::Found(place@),
            Search::NotFound => SearchView::NotFound,
        }
    }
}

/// The course of the search.
pub struct Locator {
    pub windows: bool,
    /// How many entries the search path has.
    pub dirs: usize,
    /// Whether `ANDROID_HOME` is set.
    pub home: bool,
    /// Whether `ANDROID_SDK_ROOT` is set.
    pub sdk_root: bool,
    /// How many places were seen to be empty.
    pub tried: usize,
    /// Whether the program is at the place after those.
    pub found: bool,
}

impl Locator {
    /// Where the program is looked for.
    pub open spec fn places(self) -> Seq<PlaceView> {
        places(self.windows, self.dirs, self.home, self.sdk_root)
    }

    /// No more places were tried than there are, and the program is at one.
    pub open spec fn wf(self) -> bool {
        &&& self.dirs <= isize::MAX
        &&& self.tried <= self.places().len()
        &&& self.found ==> self.tried < self.places().len()
    }

    /// There is a place that is to be looked at.
    pub open spec fn searching(self) -> bool {
        !self.found && self.tried < self.places().len()
    }

    /// What the search asks for next.
    pub open spec fn asks(self) -> SearchView {
        if self.tried == self.places().len() {
            SearchView::NotFound
        } else if self.found {
            SearchView::Found(self.places()[self.tried as int])
        } else {
            SearchView::Probe(self.places()[self.tried as int])
        }
    }

    /// The search after the place was looked at.
    pub open spec fn after(self, is_file: bool) -> Locator {
        if is_file {
            Locator { found: true, ..self }
        } else {
            Locator { tried: (self.tried + 1) as usize, ..self }
        }
    }

    /// The search after a number of places were looked at.
    pub open spec fn after_all(self, answers: Seq<bool>) -> Locator
        decreases answers.len(),
    {
        if answers.len() == 0 {
            self
        } else {
            self.after_all(answers.drop_last()).after(answers.last())
        }
    }

    /// Each answer is to a question that is asked.
    pub open spec fn asks_for(self, answers: Seq<bool>) -> bool
        decreases answers.len(),
    {
        answers.len() > 0 ==> self.asks_for(answers.drop_last()) && self.after_all(
            answers.drop_last(),
        ).searching()
    }

    /// What is to be done next.
    pub fn action(&self) -> (next: Search)
        requires
            self.wf(),
        ensures
            if self.tried == self.places().len() {
                next is NotFound
            } else if self.found {
                next matches Search::Found(place) && place@ == self.places()[self.tried as int]
            } else {
                next matches Search::Probe(place) && place@ == self.places()[self.tried as int]
            },
            next@ == self.asks(),
    {
        let exe: &'static str = adb_exe(self.windows);
        let i: usize = self.tried;
        let place: Place = if i < self.dirs {
            Place::OnPath(i, exe.to_owned())
        } else if i - self.dirs < 6 {
            Place::At(usual_path(i - self.dirs).to_owned())
        } else {
            let k: usize = i - self.dirs - 6;
            let root: Root = if self.home && k == 0 {
                Root::AndroidHome
            } else if self.sdk_root && (k == 0 || (self.home && k == 1)) {
                Root::AndroidSdkRoot
            } else {
                return Search::NotFound;
            };
            let steps: Vec<String> = text::owned(&["platform-tools", exe]);
            assert(text::texts(steps@) == seq!["platform-tools"@, program(self.windows)]);
            Place::Under(root, steps)
        };
        if self.found {
            Search::Found(place)
        } else {
            Search::Probe(place)
        }
    }

    /// Go on after the place was looked at.
    pub fn probed(&mut self, is_file: bool)
        requires
            old(self).wf(),
            old(self).searching(),
        ensures
            *final(self) == old(self).after(is_file),
            final(self).wf(),
    {
        if is_file {
            self.found = true;
        } else {
            self.tried = self.tried + 1;
        }
    }
}

/// A search that has not begun.
pub open spec fn begun(windows: bool, dirs: usize, home: bool, sdk_root: bool) -> Locator {
    Locator { windows, dirs, home, sdk_root, tried: 0, found: false }
}

/// Look for the program. The search path has `dirs` entries; `home` and
/// `sdk_root` say whether `ANDROID_HOME` and `ANDROID_SDK_ROOT` are set.
pub fn locate_adb(windows: bool, dirs: usize, home: bool, sdk_root: bool) -> (search: Locator)
    requires
        dirs <= isize::MAX,
    ensures
        search == (Locator { windows, dirs, home, sdk_root, tried: 0, found: false }),
        search == begun(windows, dirs, home, sdk_root),
        search.wf(),
{
    Locator { windows, dirs, home, sdk_root, tried: 0, found: false }
}

/// What is said when the program was not found.
pub open spec fn not_found_words() -> Seq<char> {
    "could not find `adb`. Install Android platform-tools, add it to PATH, or set ANDROID_HOME."@
}

/// What is said when the program was not found.
pub fn not_found() -> (m: &'static str)
    ensures
        m@ == not_found_words(),
{
    "could not find `adb`. Install Android platform-tools, add it to PATH, or set ANDROID_HOME."
}

/// The program that is found is the first there is in the order of the search,
/// and it is not found only if it is at none of the places. No place is looked
/// at twice.
pub proof fn law_first_place_wins(start: Locator, answers: Seq<bool>)
    requires
        start.wf(),
        start.tried == 0,
        !start.found,
        start.asks_for(answers),
    ensures
        ({
            let end = start.after_all(answers);
            &&& end.wf()
            &&& end.places() == start.places()
            &&& end.tried + if end.found {
                1int
            } else {
                0int
            } == answers.len()
            &&& forall|i: int| 0 <= i < end.tried ==> !answers[i]
            &&& end.found ==> answers[end.tried as int]
            &&& !end.found && !end.searching() ==> answers.len() == start.places().len()
        }),
    decreases answers.len(),
{
    if answers.len() > 0 {
        law_first_place_wins(start, answers.drop_last());
        let front = answers.drop_last();
        let end = start.after_all(answers);
        assert forall|i: int| 0 <= i < end.tried implies !answers[i] by {
            if i < front.len() {
                assert(answers[i] == front[i]);
            }
        }
    }
}

/// Where the program is looked for, place by place: in every directory of the
/// search path first, in its order; then at six paths; then below the directories
/// that `ANDROID_HOME` and `ANDROID_SDK_ROOT` name, as far as they are set. It is
/// called `adb`, and `adb.exe` on Windows.
pub proof fn law_places_are_in_order(
    windows: bool,
    dirs: usize,
    home: bool,
    sdk_root: bool,
    i: int,
)
    ensures
        ({
            let all = places(windows, dirs, home, sdk_root);
            let exe = if windows {
                "adb.exe"@
            } else {
                "adb"@
            };
            let below = seq!["platform-tools"@, exe];
            let set = (if home {
                1int
            } else {
                0
            }) + (if sdk_root {
                1int
            } else {
                0
            });
            &&& all.len() == dirs + 6 + set
            &&& 0 <= i < dirs ==> all[i] == PlaceView::OnPath(i as usize, exe)
            &&& all[dirs as int] == PlaceView::At(
                "C:\\Program Files\\Android\\platform-tools\\adb.exe"@,
            )
            &&& all[dirs + 1] == PlaceView::At(
                "C:\\Users\\SENTHILKUMARAN\\AppData\\Local\\Android\\Sdk\\platform-tools\\adb.exe"@,
            )
            &&& all[dirs + 2] == PlaceView::At("/opt/android-sdk/platform-tools/adb"@)
            &&& all[dirs + 3] == PlaceView::At("/usr/bin/adb"@)
            &&& all[dirs + 4] == PlaceView::At("/opt/homebrew/bin/adb"@)
            &&& all[dirs + 5] == PlaceView::At("/usr/local/bin/adb"@)
            &&& home ==> all[dirs + 6] == PlaceView::Under(Root::AndroidHome, below)
            &&& sdk_root ==> all[dirs + 5 + set] == PlaceView::Under(Root::AndroidSdkRoot, below)
        }),
{
    let all = places(windows, dirs, home, sdk_root);
    let paths = usual_paths().map_values(|p: Seq<char>| PlaceView::At(p));
    assert(paths.len() == 6);
    assert(all[dirs as int] == paths[0]);
    assert(all[dirs + 1] == paths[1]);
    assert(all[dirs + 2] == paths[2]);
    assert(all[dirs + 3] == paths[3]);
    assert(all[dirs + 4] == paths[4]);
    assert(all[dirs + 5] == paths[5]);
    let named = roots(home, sdk_root);
    let last = named.map_values(
        |r: Root| PlaceView::Under(r, seq!["platform-tools"@, program(windows)]),
    );
    if home {
        assert(named[0] == Root::AndroidHome);
        assert(all[dirs + 6] == last[0]);
    }
    if sdk_root {
        assert(named[named.len() - 1] == Root::AndroidSdkRoot);
        assert(all[dirs + 6 + named.len() - 1] == last[named.len() - 1]);
    }
}

/// What a place says is seen whole.
pub proof fn law_places_are_seen_whole(
    dir: usize,
    path: String,
    root: Root,
    steps: Vec<String>,
)
    ensures
        Place::OnPath(dir, path)@ == PlaceView::OnPath(dir, path@),
        Place::At(path)@ == PlaceView::At(path@),
        Place::Under(root, steps)@ == PlaceView::Under(root, text::texts(steps@)),
        root_name(Root::AndroidHome) == "ANDROID_HOME"@,
        root_name(Root::AndroidSdkRoot) == "ANDROID_SDK_ROOT"@,
{
}

/// The places are looked at one after the other, from the first on: while none has the
/// program, the next is looked at; the first that has it is where it is found; and it is
/// not found if, and only if, all were looked at.
pub proof fn law_places_are_looked_at_in_turn(
    windows: bool,
    dirs: usize,
    home: bool,
    sdk_root: bool,
    answers: Seq<bool>,
)
    requires
        dirs <= isize::MAX,
        answers.len() <= places(windows, dirs, home, sdk_root).len(),
        forall|i: int| 0 <= i < answers.len() ==> !#[trigger] answers[i],
    ensures
        ({
            let all = places(windows, dirs, home, sdk_root);
            let search = begun(windows, dirs, home, sdk_root).after_all(answers);
            let k = answers.len() as int;
            &&& k < all.len() ==> {
                &&& search.asks() == SearchView::Probe(all[k])
                &&& search.searching()
                &&& search.after(true).asks() == SearchView::Found(all[k])
                &&& !search.after(true).searching()
            }
            &&& k == all.len() ==> search.asks() is NotFound && !search.searching()
            &&& search.wf()
            &&& search.places() == all
            &&& search.tried == k
            &&& !search.found
        }),
    decreases answers.len(),
{
    law_places_are_in_order(windows, dirs, home, sdk_root, 0);
    if answers.len() > 0 {
        let front = answers.drop_last();
        assert forall|i: int| 0 <= i < front.len() implies !#[trigger] front[i] by {
            assert(!answers[i]);
        }
        law_places_are_looked_at_in_turn(windows, dirs, home, sdk_root, front);
        assert(!answers[answers.len() - 1]);
    }
}

} // verus!
