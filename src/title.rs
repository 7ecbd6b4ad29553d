//! Game variants, storage devices, and the probe that finds which variants
//! are installed.
use crate::path::views;
use vstd::prelude::*;

verus! {

/// The title identifier of the European release.
pub const EUR_TITLE_ID: &'static str = "10176A00";

/// The title identifier of the American release.
pub const USA_TITLE_ID: &'static str = "10176900";

/// The title identifier of the Japanese release.
pub const JPN_TITLE_ID: &'static str = "10162B00";

/// The storage device a title is installed on.
#[derive(Clone, Copy, Debug, PartialEq, Eq, Structural)]
pub enum InstallStorage {
    /// The console's internal storage.
    MLC,
    /// A USB drive attached to the console.
    USB,
}

/// The remote directory under which a device's titles live.
pub open spec fn storage_root(s: InstallStorage) -> Seq<char> {
    match s {
        InstallStorage::MLC => "storage_mlc/usr/title/0005000e"@,
        InstallStorage::USB => "storage_usb/usr/title/0005000e"@,
    }
}

/// The label under which a device is shown to the user.
pub open spec fn storage_label(s: InstallStorage) -> Seq<char> {
    match s {
        InstallStorage::MLC => "Console's Storage"@,
        InstallStorage::USB => "USB Storage"@,
    }
}

impl InstallStorage {
    /// The remote directory under which this device's titles live.
    pub fn path(&self) -> (r: String)
        ensures
            r@ == storage_root(*self),
    {
        match self {
            InstallStorage::MLC => String::from_str("storage_mlc/usr/title/0005000e"),
            InstallStorage::USB => String::from_str("storage_usb/usr/title/0005000e"),
        }
    }

    /// The label under which this device is shown to the user.
    pub fn label(&self) -> (r: String)
        ensures
            r@ == storage_label(*self),
    {
        match self {
            InstallStorage::MLC => String::from_str("Console's Storage"),
            InstallStorage::USB => String::from_str("USB Storage"),
        }
    }

    /// The remote install root of title `title_id` on this device.
    pub fn install_root(&self, title_id: &str) -> (r: String)
        ensures
            r@ == storage_root(*self) + seq!['/'] + title_id@,
    {
        proof {
            reveal_strlit("/");
        }
        let mut root = self.path();
        root.append("/");
        root.append(title_id);
        root
    }
}

/// What `str::to_uppercase` makes of a string.
pub uninterp spec fn upper_of(s: Seq<char>) -> Seq<char>;

/// Relies on `str::to_uppercase`: the upper-case form of a string, which
/// depends on its characters alone.
#[verifier::external_body]
fn to_upper(s: &str) -> (r: String)
    ensures
        r@ == upper_of(s@),
{
    s.to_uppercase()
}

/// The region of an upper-case title identifier, when it is one of the
/// known releases.
pub open spec fn region_spec(upper: Seq<char>) -> Option<Seq<char>> {
    if upper == "10176A00"@ {
        Some("EUR"@)
    } else if upper == "10176900"@ {
        Some("USA"@)
    } else if upper == "10162B00"@ {
        Some("JPN"@)
    } else {
        None
    }
}

/// The view of an optional string.
pub open spec fn opt_view(o: Option<String>) -> Option<Seq<char>> {
    match o {
        Some(s) => Some(s@),
        None => None,
    }
}

/// The region of an identifier already in upper case.
pub fn region_of_upper(upper: &str) -> (r: Option<String>)
    ensures
        opt_view(r) == region_spec(upper@),
{
    let u = String::from_str(upper);
    if u == String::from_str("10176A00") {
        Some(String::from_str("EUR"))
    } else if u == String::from_str("10176900") {
        Some(String::from_str("USA"))
    } else if u == String::from_str("10162B00") {
        Some(String::from_str("JPN"))
    } else {
        None
    }
}

/// The region of a title identifier, compared without regard to case.
pub fn detect_region(title_id: &str) -> (r: Option<String>)
    ensures
        opt_view(r) == region_spec(upper_of(title_id@)),
{
    let upper = to_upper(title_id);
    region_of_upper(upper.as_str())
}

/// The identifiers of the known releases.
pub fn title_ids() -> (r: Vec<String>)
    ensures
        views(r@) == seq!["10176A00"@, "10176900"@, "10162B00"@],
{
    let mut r: Vec<String> = Vec::new();
    r.push(String::from_str(EUR_TITLE_ID));
    r.push(String::from_str(USA_TITLE_ID));
    r.push(String::from_str(JPN_TITLE_ID));
    assert(views(r@) =~= seq!["10176A00"@, "10176900"@, "10162B00"@]);
    r
}

/// Whether an upper-case name is one of the candidates.
pub fn is_candidate(upper: &str, candidates: &Vec<String>) -> (r: bool)
    ensures
        r == views(candidates@).contains(upper@),
{
    let u = String::from_str(upper);
    let mut i: usize = 0;
    while i < candidates.len()
        invariant
            u@ == upper@,
            i <= candidates@.len(),
            forall|j: int| 0 <= j < i ==> candidates@[j]@ != upper@,
        decreases candidates@.len() - i,
    {
        if candidates[i] == u {
            assert(views(candidates@)[i as int] == upper@);
            return true;
        }
        i = i + 1;
    }
    proof {
        if views(candidates@).contains(upper@) {
            let j = choose|j: int| 0 <= j < views(candidates@).len() && views(candidates@)[j] == upper@;
            assert(candidates@[j]@ == upper@);
        }
    }
    false
}

/// The names of a listing that are candidates once put in upper case.
pub open spec fn probe_spec(listing: Seq<Seq<char>>, candidates: Seq<Seq<char>>) -> Seq<
    Seq<char>,
> {
    listing.filter(|e: Seq<char>| candidates.contains(upper_of(e)))
}

/// The entries of a remote listing whose upper-case form is one of the
/// candidates, in listing order. Empty when nothing matches.
pub fn filter_installed(listing: &Vec<String>, candidates: &Vec<String>) -> (r: Vec<String>)
    ensures
        views(r@) == probe_spec(views(listing@), views(candidates@)),
{
    let ghost pred = |e: Seq<char>| views(candidates@).contains(upper_of(e));
    let mut out: Vec<String> = Vec::new();
    let mut i: usize = 0;
    while i < listing.len()
        invariant
            i <= listing@.len(),
            pred == (|e: Seq<char>| views(candidates@).contains(upper_of(e))),
            views(out@) == views(listing@).subrange(0, i as int).filter(pred),
        decreases listing@.len() - i,
    {
        let ghost prev = views(listing@).subrange(0, i as int);
        assert(views(listing@).subrange(0, i + 1) =~= prev.push(listing@[i as int]@));
        proof {
            prev.lemma_filter_push(listing@[i as int]@, pred);
        }
        let upper = to_upper(listing[i].as_str());
        if is_candidate(upper.as_str(), candidates) {
            let ghost before = out@;
            out.push(listing[i].clone());
            assert(views(out@) =~= views(before).push(listing@[i as int]@));
        }
        i = i + 1;
    }
    assert(views(listing@).subrange(0, listing@.len() as int) =~= views(listing@));
    out
}

/// A known release found installed on a storage device.
pub struct InstalledTitle {
    pub storage: InstallStorage,
    pub title_id: String,
}

impl View for InstalledTitle {
    type V = (InstallStorage, Seq<char>);

    open spec fn view(&self) -> (InstallStorage, Seq<char>) {
        (self.storage, self.title_id@)
    }
}

/// The views of a list of installed titles.
pub open spec fn installed_views(v: Seq<InstalledTitle>) -> Seq<(InstallStorage, Seq<char>)> {
    v.map_values(|t: InstalledTitle| t@)
}

/// The names of a listing on `storage` that are a known release, paired
/// with that device, in listing order.
pub open spec fn detected_spec(storage: InstallStorage, listing: Seq<Seq<char>>) -> Seq<
    (InstallStorage, Seq<char>),
>
    decreases listing.len(),
{
    if listing.len() == 0 {
        Seq::empty()
    } else {
        let earlier = detected_spec(storage, listing.drop_last());
        if region_spec(upper_of(listing.last())) is Some {
            earlier.push((storage, listing.last()))
        } else {
            earlier
        }
    }
}

/// Append to `out` the names of `listing` that are a known release, paired
/// with `storage`.
fn push_detected(out: &mut Vec<InstalledTitle>, storage: InstallStorage, listing: &Vec<String>)
    ensures
        installed_views(final(out)@) == installed_views(old(out)@) + detected_spec(
            storage,
            views(listing@),
        ),
{
    let mut i: usize = 0;
    while i < listing.len()
        invariant
            i <= listing@.len(),
            installed_views(out@) == installed_views(old(out)@) + detected_spec(
                storage,
                views(listing@).subrange(0, i as int),
            ),
        decreases listing@.len() - i,
    {
        let ghost prev = views(listing@).subrange(0, i as int);
        assert(views(listing@).subrange(0, i + 1).drop_last() =~= prev);
        assert(views(listing@).subrange(0, i + 1).last() == listing@[i as int]@);
        if detect_region(listing[i].as_str()).is_some() {
            let t = InstalledTitle { storage, title_id: listing[i].clone() };
            let ghost before = out@;
            out.push(t);
            assert(installed_views(out@) =~= installed_views(before).push(t@));
        }
        i = i + 1;
    }
    assert(views(listing@).subrange(0, listing@.len() as int) =~= views(listing@));
}

/// The known releases among the probed names of both devices: first those
/// on the console's storage, then those on the USB drive, each in listing
/// order.
pub fn collect_installed(mlc: &Vec<String>, usb: &Vec<String>) -> (r: Vec<InstalledTitle>)
    ensures
        installed_views(r@) == detected_spec(InstallStorage::MLC, views(mlc@)) + detected_spec(
            InstallStorage::USB,
            views(usb@),
        ),
{
    let mut out: Vec<InstalledTitle> = Vec::new();
    push_detected(&mut out, InstallStorage::MLC, mlc);
    push_detected(&mut out, InstallStorage::USB, usb);
    assert(installed_views(Seq::<InstalledTitle>::empty()) =~= Seq::empty());
    out
}

} // verus!
