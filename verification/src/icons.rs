//! Application icons: their encoding for the front end and the cache that
//! keeps them.

use crate::keys::{distinct, index_of, lemma_index_of, lemma_index_of_is};
use vstd::prelude::*;

verus! {

/// How many icons the cache holds at most.
pub const MAX_CACHE_SIZE: usize = 100;

/// Edge of an icon in points.
pub const ICON_SIZE: u32 = 16;

/// An application and its icon as text, if it has one.
pub struct AppIcon {
    pub app: String,
    pub icon: Option<String>,
}

/// The Base64 text of a sequence of bytes, in the standard alphabet and
/// with padding.
pub uninterp spec fn base64_of(bytes: Seq<u8>) -> Seq<char>;

/// `Engine::encode` of the `base64` crate on its `STANDARD` engine. The
/// contract only names the result: it is the Base64 text of the bytes.
#[verifier::external_body]
fn base64_standard(bytes: &Vec<u8>) -> (r: String)
    ensures
        r@ == base64_of(bytes@),
{
    base64::Engine::encode(&base64::engine::general_purpose::STANDARD, bytes)
}

pub open spec fn icon_text(icon: Option<String>) -> Option<Seq<char>> {
    match icon {
        Some(t) => Some(t@),
        None => None,
    }
}

/// Pairs an application with the text of its icon.
pub fn app_icon(app: &str, icon: Option<String>) -> (r: AppIcon)
    ensures
        r.app@ == app@,
        icon_text(r.icon) == icon_text(icon),
{
    AppIcon { app: app.to_owned(), icon }
}

/// Encodes the image of an icon for the front end; no image gives no icon.
pub fn encode_icon(png: Option<&Vec<u8>>) -> (r: Option<String>)
    ensures
        icon_text(r) == (match png {
            Some(bytes) => Some(base64_of(bytes@)),
            None => None,
        }),
{
    match png {
        Some(bytes) => Some(base64_standard(bytes)),
        None => None,
    }
}

/// The mathematical value of a cached icon.
pub struct CachedIconView {
    pub app: Seq<char>,
    pub icon: Option<Seq<char>>,
}

impl View for AppIcon {
    type V = CachedIconView;

    open spec fn view(&self) -> CachedIconView {
        CachedIconView { app: self.app@, icon: icon_text(self.icon) }
    }
}

pub open spec fn names_of(entries: Seq<CachedIconView>) -> Seq<Seq<char>> {
    Seq::new(entries.len(), |i: int| entries[i].app)
}

/// The entries after the icon of `app` was stored: a full cache first
/// loses the older half of its entries; the new entry then replaces the
/// one of the same application or goes to the end.
pub open spec fn stored(entries: Seq<CachedIconView>, entry: CachedIconView) -> Seq<CachedIconView> {
    let kept = if entries.len() >= MAX_CACHE_SIZE {
        entries.skip((MAX_CACHE_SIZE / 2) as int)
    } else {
        entries
    };
    let k = index_of(names_of(kept), entry.app);
    if k < kept.len() {
        kept.update(k, entry)
    } else {
        kept.push(entry)
    }
}

/// Icons by application name, oldest first. An application whose icon
/// could not be had is remembered too, so that it is not asked for again.
pub struct IconCache {
    entries: Vec<AppIcon>,
}

impl View for IconCache {
    type V = Seq<CachedIconView>;

    closed spec fn view(&self) -> Seq<CachedIconView> {
        Seq::new(self.entries@.len(), |i: int| self.entries@[i]@)
    }
}

impl IconCache {
    /// No application is cached twice, and the cache is never over its limit.
    pub open spec fn wf(&self) -> bool {
        distinct(names_of(self@)) && self@.len() <= MAX_CACHE_SIZE
    }

    pub fn new() -> (r: IconCache)
        ensures
            r.wf(),
            r@.len() == 0,
    {
        IconCache { entries: Vec::new() }
    }

    pub fn len(&self) -> (r: usize)
        ensures
            r == self@.len(),
    {
        self.entries.len()
    }

    fn find(&self, key: &String) -> (k: usize)
        ensures
            k == index_of(names_of(self@), key@),
            k <= self.entries@.len(),
    {
        let ghost names = names_of(self@);
        let mut i: usize = 0;
        while i < self.entries.len()
            invariant
                i <= self.entries@.len(),
                names == names_of(self@),
                names.len() == self.entries@.len(),
                forall|j: int| 0 <= j < i ==> #[trigger] names[j] != key@,
            decreases self.entries@.len() - i,
        {
            if self.entries[i].app == *key {
                proof {
                    lemma_index_of_is(names, key@, i as int);
                }
                return i;
            }
            i = i + 1;
        }
        proof {
            lemma_index_of_is(names, key@, i as int);
        }
        i
    }

    /// The cached answer for an application, if there is one. The answer
    /// may be that the application has no icon.
    pub fn lookup(&self, app: &str) -> (r: Option<AppIcon>)
        ensures
            match r {
                Some(found) => {
                    &&& index_of(names_of(self@), app@) < self@.len()
                    &&& found@ == self@[index_of(names_of(self@), app@)]
                },
                None => index_of(names_of(self@), app@) >= self@.len(),
            },
    {
        let key: String = app.to_owned();
        let k: usize = self.find(&key);
        proof {
            lemma_index_of(names_of(self@), app@);
        }
        if k < self.entries.len() {
            let icon: Option<String> = match &self.entries[k].icon {
                Some(t) => Some(t.clone()),
                None => None,
            };
            Some(AppIcon { app: self.entries[k].app.clone(), icon })
        } else {
            None
        }
    }

    /// Remembers the icon of an application.
    ///
    /// A cache that holds `MAX_CACHE_SIZE` entries first drops the older
    /// half of them.
    pub fn store(&mut self, app: &str, icon: Option<String>)
        requires
            old(self).wf(),
        ensures
            final(self).wf(),
            final(self)@ == stored(old(self)@, CachedIconView { app: app@, icon: icon_text(icon) }),
    {
        let ghost before = self@;
        let ghost entry = CachedIconView { app: app@, icon: icon_text(icon) };
        if self.entries.len() >= MAX_CACHE_SIZE {
            let kept: Vec<AppIcon> = self.entries.split_off(MAX_CACHE_SIZE / 2);
            self.entries = kept;
            proof {
                assert(self@ =~= before.skip((MAX_CACHE_SIZE / 2) as int));
                let names = names_of(self@);
                assert forall|i: int, j: int| 0 <= i < j < names.len() implies names[i] != names[j] by {
                    assert(names[i] == names_of(before)[i + MAX_CACHE_SIZE / 2]);
                    assert(names[j] == names_of(before)[j + MAX_CACHE_SIZE / 2]);
                }
            }
        }
        let ghost kept = self@;
        let key: String = app.to_owned();
        let k: usize = self.find(&key);
        proof {
            lemma_index_of(names_of(kept), app@);
        }
        if k < self.entries.len() {
            self.entries[k].icon = icon;
            proof {
                assert(names_of(kept)[k as int] == app@);
                assert(self@ =~= kept.update(k as int, entry));
                assert(names_of(self@) =~= names_of(kept));
            }
        } else {
            self.entries.push(AppIcon { app: key, icon });
            proof {
                assert(self@ =~= kept.push(entry));
                let names = names_of(self@);
                assert forall|i: int, j: int| 0 <= i < j < names.len() implies names[i] != names[j] by {
                    assert(names[i] == names_of(kept)[i]);
                    if j < k {
                        assert(names[j] == names_of(kept)[j]);
                    }
                }
            }
        }
    }

    /// Forgets every icon.
    pub fn clear(&mut self)
        ensures
            final(self).wf(),
            final(self)@.len() == 0,
    {
        self.entries.clear();
    }
}

} // verus!
