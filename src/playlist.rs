use vstd::prelude::*;
use fuzzy_matcher::skim::SkimMatcherV2;
use rand::Rng;

verus! {

/// What a playlist navigation call can fail with.
#[derive(Debug, Clone, Copy, PartialEq, Eq, Structural)]
pub enum PlaylistError {
    /// No preset has been loaded.
    EmptyPlaylist,
    /// The requested index is not a position of the playlist.
    IndexOutOfRange,
}

/// One entry found while scanning a preset directory: its base name, and its
/// contents when they could be read as text.
pub struct ScannedEntry {
    pub name: String,
    pub contents: Option<String>,
}

/// Whether a directory entry name marks a hidden entry.
pub open spec fn hidden_name(name: Seq<char>) -> bool {
    name.len() > 0 && name[0] == '.'
}

/// Whether a scanned entry becomes a preset: visible, and read as text.
pub open spec fn entry_loads(e: ScannedEntry) -> bool {
    !hidden_name(e.name@) && e.contents.is_some()
}

/// The presets that a scan contributes, in scan order.
pub open spec fn loaded_presets(entries: Seq<ScannedEntry>) -> Seq<(Seq<char>, Seq<char>)>
    decreases entries.len(),
{
    if entries.len() == 0 {
        seq![]
    } else {
        let rest = loaded_presets(entries.drop_last());
        let e = entries.last();
        if entry_loads(e) {
            rest.push((e.name@, e.contents.unwrap()@))
        } else {
            rest
        }
    }
}

/// The positions `j < k` whose flag is set, in increasing order.
pub open spec fn kept_indices(flags: Seq<bool>, k: nat) -> Seq<usize>
    decreases k,
{
    if k == 0 {
        seq![]
    } else {
        let rest = kept_indices(flags, (k - 1) as nat);
        if flags[k - 1] {
            rest.push((k - 1) as usize)
        } else {
            rest
        }
    }
}

/// What the skim fuzzy matcher (default settings, smart case) decides about
/// whether `pattern` matches `choice`.
pub uninterp spec fn skim_matches(choice: Seq<char>, pattern: Seq<char>) -> bool;

/// Relies on `fuzzy_matcher::skim::SkimMatcherV2::fuzzy` with the default
/// matcher: the answer depends on the two strings alone, and an empty pattern
/// matches every choice.
#[verifier::external_body]
fn fuzzy_matches(choice: &str, pattern: &str) -> (r: bool)
    ensures
        r == skim_matches(choice@, pattern@),
        pattern@.len() == 0 ==> r,
{
    SkimMatcherV2::default().fuzzy(choice, pattern, false).is_some()
}

/// Relies on `rand::Rng::gen_range` over `thread_rng()`: a value of `0..n`,
/// which it panics on only when the range is empty.
#[verifier::external_body]
fn random_below(n: usize) -> (r: usize)
    requires
        n > 0,
    ensures
        r < n,
{
    rand::thread_rng().gen_range(0..n)
}

/// Whether an entry name, when it is text at all, names a visible entry.
/// A name that is not valid text is treated as hidden.
pub fn is_visible_name(name: Option<&str>) -> (r: bool)
    ensures
        r == (name.is_some() && !hidden_name(name.unwrap()@)),
{
    match name {
        Some(s) => !starts_with_dot(s),
        None => false,
    }
}

fn starts_with_dot(s: &str) -> (r: bool)
    ensures
        r == hidden_name(s@),
{
    let mut chars = s.chars();
    match chars.next() {
        Some(c) => c == '.',
        None => false,
    }
}

/// The ordered presets of a session and the position of the one selected.
pub struct Playlist {
    presets: Vec<(String, String)>,
    current_index: usize,
}

impl Playlist {
    /// The presets as (display name, source text) pairs, in insertion order.
    pub closed spec fn entries(&self) -> Seq<(Seq<char>, Seq<char>)> {
        self.presets@.map_values(|p: (String, String)| (p.0@, p.1@))
    }

    /// The display names, in insertion order.
    pub open spec fn names(&self) -> Seq<Seq<char>> {
        self.entries().map_values(|p: (Seq<char>, Seq<char>)| p.0)
    }

    pub closed spec fn index(&self) -> nat {
        self.current_index as nat
    }

    /// The selected position is a valid index whenever there are presets.
    pub open spec fn wf(&self) -> bool {
        if self.entries().len() == 0 {
            self.index() == 0
        } else {
            self.index() < self.entries().len()
        }
    }

    /// An empty playlist.
    pub fn new() -> (r: Self)
        ensures
            r.entries() == Seq::<(Seq<char>, Seq<char>)>::empty(),
            r.index() == 0,
            r.wf(),
    {
        Playlist { presets: Vec::new(), current_index: 0 }
    }

    /// Appends one preset at the end.
    pub fn add_preset(&mut self, name: String, text: String)
        requires
            old(self).wf(),
        ensures
            final(self).entries() == old(self).entries().push((name@, text@)),
            final(self).index() == old(self).index(),
            final(self).wf(),
    {
        self.presets.push((name, text));
        proof {
            assert(self.presets@ == old(self).presets@.push((name, text)));
            assert(self.entries() =~= old(self).entries().push((name@, text@)));
        }
    }

    /// Appends, in scan order, every scanned entry that is visible and was
    /// read as text; hidden entries and entries without text are skipped.
    pub fn add_dir(&mut self, entries: &Vec<ScannedEntry>)
        requires
            old(self).wf(),
        ensures
            final(self).entries() == old(self).entries() + loaded_presets(entries@),
            final(self).index() == old(self).index(),
            final(self).wf(),
    {
        let mut i: usize = 0;
        while i < entries.len()
            invariant
                i <= entries@.len(),
                self.wf(),
                self.index() == old(self).index(),
                self.entries() == old(self).entries() + loaded_presets(entries@.take(i as int)),
            decreases entries@.len() - i,
        {
            let e = &entries[i];
            proof {
                assert(entries@.take(i as int + 1).drop_last() =~= entries@.take(i as int));
                assert(entries@.take(i as int + 1).last() == entries@[i as int]);
            }
            let visible = is_visible_name(Some(e.name.as_str()));
            match &e.contents {
                Some(text) => {
                    if visible {
                        self.add_preset(e.name.clone(), text.clone());
                    }
                },
                None => {},
            }
            proof {
                assert(self.entries() =~= old(self).entries() + loaded_presets(
                    entries@.take(i as int + 1),
                ));
            }
            i = i + 1;
        }
        proof {
            assert(entries@.take(entries@.len() as int) =~= entries@);
        }
    }

    /// Selects a preset uniformly at random and returns its index; fails on an
    /// empty playlist and then changes nothing.
    pub fn play_random(&mut self) -> (r: Result<usize, PlaylistError>)
        requires
            old(self).wf(),
        ensures
            final(self).wf(),
            final(self).entries() == old(self).entries(),
            match r {
                Ok(i) => i < old(self).entries().len() && final(self).index() == i,
                Err(e) => e == PlaylistError::EmptyPlaylist && old(self).entries().len() == 0
                    && final(self).index() == old(self).index(),
            },
            (r is Err) == (old(self).entries().len() == 0),
    {
        if self.presets.len() == 0 {
            return Err(PlaylistError::EmptyPlaylist);
        }
        let i = random_below(self.presets.len());
        self.current_index = i;
        Ok(i)
    }

    /// Selects the preset at `index`; an index outside the playlist is
    /// refused and leaves the selection as it was.
    pub fn play_index(&mut self, index: usize) -> (r: Result<(), PlaylistError>)
        requires
            old(self).wf(),
        ensures
            final(self).wf(),
            final(self).entries() == old(self).entries(),
            index < old(self).entries().len() ==> r == Ok::<(), PlaylistError>(())
                && final(self).index() == index,
            index >= old(self).entries().len() ==> r == Err::<(), PlaylistError>(
                PlaylistError::IndexOutOfRange,
            ) && final(self).index() == old(self).index(),
    {
        if index < self.presets.len() {
            self.current_index = index;
            Ok(())
        } else {
            Err(PlaylistError::IndexOutOfRange)
        }
    }

    /// The display names, in insertion order.
    pub fn presets(&self) -> (r: Vec<String>)
        ensures
            r@.map_values(|s: String| s@) == self.names(),
    {
        let mut out: Vec<String> = Vec::new();
        let mut i: usize = 0;
        while i < self.presets.len()
            invariant
                i <= self.presets@.len(),
                self.names().len() == self.presets@.len(),
                out@.len() == i,
                forall|j: int| 0 <= j < i ==> (#[trigger] out@[j])@ == self.names()[j],
            decreases self.presets@.len() - i,
        {
            out.push(self.presets[i].0.clone());
            i = i + 1;
        }
        proof {
            assert(out@.map_values(|s: String| s@) =~= self.names());
        }
        out
    }

    /// The index of the selected preset.
    pub fn current_index(&self) -> (r: usize)
        ensures
            r == self.index(),
    {
        self.current_index
    }

    /// The number of presets.
    pub fn len(&self) -> (r: usize)
        ensures
            r == self.entries().len(),
    {
        self.presets.len()
    }

    /// The source text of the preset at `index`, if there is one.
    pub fn preset_text(&self, index: usize) -> (r: Option<&str>)
        ensures
            index < self.entries().len() ==> r is Some && r.unwrap()@ == self.entries()[index as int].1,
            index >= self.entries().len() ==> r is None,
    {
        if index < self.presets.len() {
            Some(self.presets[index].1.as_str())
        } else {
            None
        }
    }

    /// The positions whose flag is set, in insertion order: the listing that
    /// a search shows, given for each preset whether it matched.
    pub fn filter_by_flags(&self, flags: &Vec<bool>) -> (r: Vec<usize>)
        requires
            flags@.len() == self.entries().len(),
        ensures
            r@ == kept_indices(flags@, flags@.len()),
    {
        let mut out: Vec<usize> = Vec::new();
        let mut i: usize = 0;
        while i < flags.len()
            invariant
                i <= flags@.len(),
                out@ == kept_indices(flags@, i as nat),
            decreases flags@.len() - i,
        {
            if flags[i] {
                out.push(i);
            }
            i = i + 1;
        }
        out
    }

    /// The positions of the presets whose name fuzzily matches `search`, in
    /// insertion order (matching filters the listing, it never reorders it).
    pub fn filtered(&self, search: &str) -> (r: Vec<usize>)
        ensures
            r@ == kept_indices(
                Seq::new(self.entries().len(), |j: int| skim_matches(self.names()[j], search@)),
                self.entries().len(),
            ),
    {
        let mut flags: Vec<bool> = Vec::new();
        let mut i: usize = 0;
        while i < self.presets.len()
            invariant
                i <= self.presets@.len(),
                self.entries().len() == self.presets@.len(),
                flags@ == Seq::new(i as nat, |j: int| skim_matches(self.names()[j], search@)),
            decreases self.presets@.len() - i,
        {
            let m = fuzzy_matches(self.presets[i].0.as_str(), search);
            flags.push(m);
            proof {
                assert(flags@ =~= Seq::new(
                    (i + 1) as nat,
                    |j: int| skim_matches(self.names()[j], search@),
                ));
            }
            i = i + 1;
        }
        self.filter_by_flags(&flags)
    }
}

impl Default for Playlist {
    fn default() -> (r: Self)
        ensures
            r.entries() == Seq::<(Seq<char>, Seq<char>)>::empty(),
            r.index() == 0,
            r.wf(),
    {
        Playlist::new()
    }
}

/// Every position that a filter keeps is a position of the list, and the
/// kept positions come in strictly increasing order: filtering never
/// reorders the presets.
pub proof fn lemma_filter_keeps_order(flags: Seq<bool>, k: nat)
    requires
        k <= flags.len(),
        k <= usize::MAX,
    ensures
        forall|a: int|
            0 <= a < kept_indices(flags, k).len() ==> {
                let j = #[trigger] kept_indices(flags, k)[a] as int;
                j < k && flags[j]
            },
        forall|a: int, b: int|
            0 <= a < b < kept_indices(flags, k).len() ==> #[trigger] kept_indices(flags, k)[a]
                < #[trigger] kept_indices(flags, k)[b],
    decreases k,
{
    if k > 0 {
        let k1 = (k - 1) as nat;
        lemma_filter_keeps_order(flags, k1);
        let rest = kept_indices(flags, k1);
        if flags[k1 as int] {
            let all = rest.push(k1 as usize);
            assert(kept_indices(flags, k) == all);
            assert forall|a: int| 0 <= a < all.len() implies {
                let j = #[trigger] all[a] as int;
                j < k && flags[j]
            } by {
                if a < rest.len() {
                    assert(all[a] == rest[a]);
                }
            }
            assert forall|a: int, b: int| 0 <= a < b < all.len() implies #[trigger] all[a]
                < #[trigger] all[b] by {
                assert(all[a] == rest[a]);
                if b < rest.len() {
                    assert(all[b] == rest[b]);
                }
            }
        }
    }
}

} // verus!
