//! Resolving the EGL and GLES entry points that an import needs.
//!
//! A symbol's address is a number; zero is the null pointer. Each place that
//! may know a symbol is asked in turn, and what it answers decides whether the
//! next one is asked.
use vstd::prelude::*;

verus! {

/// A runtime library that exports entry points.
#[derive(Debug, Clone, Copy, PartialEq, Eq, Structural)]
pub enum Library {
    Egl,
    Gles,
}

/// An entry point that a DMA-BUF import calls.
#[derive(Debug, Clone, Copy, PartialEq, Eq, Structural)]
pub enum EntryPoint {
    GetProcAddress,
    GetCurrentDisplay,
    CreateImage,
    DestroyImage,
    ImageTargetTexture2d,
}

/// A place that may know a symbol's address.
#[derive(Debug, Clone, Copy, PartialEq, Eq, Structural)]
pub enum SymbolSource {
    /// A library's table of exported symbols.
    Library(Library),
    /// `eglGetProcAddress`, which also knows the extension entry points that
    /// the libraries do not export.
    ProcAddress,
}

/// How a symbol is looked up.
#[derive(Debug, Clone, Copy, PartialEq, Eq, Structural)]
pub enum Lookup {
    /// In the EGL library alone: for the function through which the other
    /// entry points are resolved. It is called, so it is never null.
    EglLibrary,
    /// An entry point that must exist: the first non-null address, from a
    /// library or else from `eglGetProcAddress`.
    Required,
    /// An entry point that may be missing: a non-null address that a library
    /// exports, else the answer of `eglGetProcAddress`, null or not.
    Optional,
}

/// What comes next in a search.
#[derive(Debug, Clone, Copy, PartialEq, Eq, Structural)]
pub enum SearchStep {
    /// Ask this source.
    Ask(SymbolSource),
    /// The symbol's address.
    Found(usize),
    /// Nobody knows the symbol.
    Unavailable,
}

/// One step of loading the runtime.
#[derive(Debug, Clone, Copy, PartialEq, Eq, Structural)]
pub enum LoadStep {
    /// Opens a library.
    Open(Library),
    /// Resolves an entry point.
    Resolve(EntryPoint),
    /// Resolves every GL function, each as far as it exists.
    ResolveGl,
}

/// A library could not be opened.
#[derive(Debug, Clone, Copy, PartialEq, Eq, Structural)]
pub struct LibraryMissing(pub Library);

impl Library {
    /// Takes the handle that opening the library gave, if it did, for
    /// [`LoadStep::Open`].
    pub fn opened<T>(self, handle: Option<T>) -> (opened: Result<T, LibraryMissing>)
        ensures
            opened == match handle {
                Some(handle) => Ok::<T, LibraryMissing>(handle),
                None => Err(LibraryMissing(self)),
            },
    {
        match handle {
            Some(handle) => Ok(handle),
            None => Err(LibraryMissing(self)),
        }
    }

    /// The file name under which the system provides the library.
    pub open spec fn spec_soname(self) -> Seq<char> {
        match self {
            Library::Egl => "libEGL.so.1"@,
            Library::Gles => "libGLESv2.so.2"@,
        }
    }

    /// The file name under which the system provides the library.
    pub fn soname(self) -> (name: &'static str)
        ensures
            name@ == self.spec_soname(),
    {
        match self {
            Library::Egl => "libEGL.so.1",
            Library::Gles => "libGLESv2.so.2",
        }
    }
}

impl EntryPoint {
    /// The symbol's name.
    pub open spec fn spec_name(self) -> Seq<char> {
        match self {
            EntryPoint::GetProcAddress => "eglGetProcAddress"@,
            EntryPoint::GetCurrentDisplay => "eglGetCurrentDisplay"@,
            EntryPoint::CreateImage => "eglCreateImageKHR"@,
            EntryPoint::DestroyImage => "eglDestroyImageKHR"@,
            EntryPoint::ImageTargetTexture2d => "glEGLImageTargetTexture2DOES"@,
        }
    }

    /// The symbol's name.
    pub fn name(self) -> (name: &'static str)
        ensures
            name@ == self.spec_name(),
    {
        match self {
            EntryPoint::GetProcAddress => "eglGetProcAddress",
            EntryPoint::GetCurrentDisplay => "eglGetCurrentDisplay",
            EntryPoint::CreateImage => "eglCreateImageKHR",
            EntryPoint::DestroyImage => "eglDestroyImageKHR",
            EntryPoint::ImageTargetTexture2d => "glEGLImageTargetTexture2DOES",
        }
    }

    /// How the entry point is looked up: the resolver itself in the EGL
    /// library, every other one through all sources.
    pub open spec fn spec_lookup(self) -> Lookup {
        if self == EntryPoint::GetProcAddress {
            Lookup::EglLibrary
        } else {
            Lookup::Required
        }
    }

    /// How the entry point is looked up.
    pub fn lookup(self) -> (lookup: Lookup)
        ensures
            lookup == self.spec_lookup(),
    {
        match self {
            EntryPoint::GetProcAddress => Lookup::EglLibrary,
            EntryPoint::GetCurrentDisplay
            | EntryPoint::CreateImage
            | EntryPoint::DestroyImage
            | EntryPoint::ImageTargetTexture2d => Lookup::Required,
        }
    }
}

impl Lookup {
    /// The sources that are asked, in order.
    pub open spec fn sources(self) -> Seq<SymbolSource> {
        match self {
            Lookup::EglLibrary => seq![SymbolSource::Library(Library::Egl)],
            Lookup::Required | Lookup::Optional => seq![
                SymbolSource::Library(Library::Egl),
                SymbolSource::Library(Library::Gles),
                SymbolSource::ProcAddress,
            ],
        }
    }

    /// Whether a source's answer ends the search. `None` is the answer of a
    /// library that does not export the symbol.
    pub open spec fn takes(self, source: SymbolSource, answer: Option<usize>) -> bool {
        match answer {
            None => false,
            Some(address) => match self {
                Lookup::EglLibrary | Lookup::Required => address != 0,
                Lookup::Optional => source != SymbolSource::ProcAddress ==> address != 0,
            },
        }
    }

    /// Whether the answer at position `index` is there and ends the search.
    pub open spec fn ends_at(self, answers: Seq<Option<usize>>, index: int) -> bool {
        index < answers.len() && self.takes(self.sources()[index], answers[index])
    }

    /// The first answer that ends the search, if one does.
    pub open spec fn first_taken(self, answers: Seq<Option<usize>>) -> Option<usize> {
        if self.ends_at(answers, 0) {
            answers[0]
        } else if self.ends_at(answers, 1) {
            answers[1]
        } else if self.ends_at(answers, 2) {
            answers[2]
        } else {
            None
        }
    }

    /// What follows on the answers of the first sources.
    pub open spec fn step_after(self, answers: Seq<Option<usize>>) -> SearchStep {
        match self.first_taken(answers) {
            Some(address) => SearchStep::Found(address),
            None => if answers.len() < self.sources().len() {
                SearchStep::Ask(self.sources()[answers.len() as int])
            } else {
                SearchStep::Unavailable
            },
        }
    }

    /// The source that is asked at position `index`, if there is one.
    fn source(self, index: usize) -> (source: Option<SymbolSource>)
        ensures
            source == if index < self.sources().len() {
                Some(self.sources()[index as int])
            } else {
                None
            },
    {
        if index == 0 {
            return Some(SymbolSource::Library(Library::Egl));
        }
        match self {
            Lookup::EglLibrary => None,
            Lookup::Required | Lookup::Optional => if index == 1 {
                Some(SymbolSource::Library(Library::Gles))
            } else if index == 2 {
                Some(SymbolSource::ProcAddress)
            } else {
                None
            },
        }
    }

    /// Whether a source's answer ends the search, and with which address.
    fn taken(self, source: SymbolSource, answer: Option<usize>) -> (taken: Option<usize>)
        ensures
            taken == if self.takes(source, answer) {
                answer
            } else {
                None
            },
    {
        let address: usize = match answer {
            None => {
                return None;
            },
            Some(address) => address,
        };
        let from_library = match source {
            SymbolSource::Library(_) => true,
            SymbolSource::ProcAddress => false,
        };
        let null_ends = match self {
            Lookup::EglLibrary | Lookup::Required => false,
            Lookup::Optional => !from_library,
        };
        if address != 0 || null_ends {
            Some(address)
        } else {
            None
        }
    }

    /// Decides what comes next after the first sources have answered.
    pub fn next(self, answers: &Vec<Option<usize>>) -> (step: SearchStep)
        requires
            answers@.len() <= self.sources().len(),
        ensures
            step == self.step_after(answers@),
    {
        let mut index: usize = 0;
        while index < answers.len()
            invariant
                index <= answers@.len() <= self.sources().len(),
                forall|i: int| 0 <= i < index ==> !#[trigger] self.ends_at(answers@, i),
            decreases answers@.len() - index,
        {
            let source = self.source(index).unwrap();
            match self.taken(source, answers[index]) {
                Some(address) => {
                    return SearchStep::Found(address);
                },
                None => {},
            }
            index = index + 1;
        }
        match self.source(index) {
            Some(source) => SearchStep::Ask(source),
            None => SearchStep::Unavailable,
        }
    }
}

/// The steps of loading the runtime, in order.
pub open spec fn load_steps() -> Seq<LoadStep> {
    seq![
        LoadStep::Open(Library::Egl),
        LoadStep::Open(Library::Gles),
        LoadStep::Resolve(EntryPoint::GetProcAddress),
        LoadStep::Resolve(EntryPoint::GetCurrentDisplay),
        LoadStep::Resolve(EntryPoint::CreateImage),
        LoadStep::Resolve(EntryPoint::DestroyImage),
        LoadStep::Resolve(EntryPoint::ImageTargetTexture2d),
        LoadStep::ResolveGl,
    ]
}

/// How the symbols of a step are looked up, if it looks any up.
pub open spec fn lookup_of(step: LoadStep) -> Option<Lookup> {
    match step {
        LoadStep::Open(_) => None,
        LoadStep::Resolve(entry_point) => Some(entry_point.spec_lookup()),
        LoadStep::ResolveGl => Some(Lookup::Optional),
    }
}

/// The step that makes a source available.
pub open spec fn provider_of(source: SymbolSource) -> LoadStep {
    match source {
        SymbolSource::Library(library) => LoadStep::Open(library),
        SymbolSource::ProcAddress => LoadStep::Resolve(EntryPoint::GetProcAddress),
    }
}

/// Lists the steps of loading the runtime.
pub fn load_runtime() -> (steps: Vec<LoadStep>)
    ensures
        steps@ == load_steps(),
{
    let steps: Vec<LoadStep> = vec![
        LoadStep::Open(Library::Egl),
        LoadStep::Open(Library::Gles),
        LoadStep::Resolve(EntryPoint::GetProcAddress),
        LoadStep::Resolve(EntryPoint::GetCurrentDisplay),
        LoadStep::Resolve(EntryPoint::CreateImage),
        LoadStep::Resolve(EntryPoint::DestroyImage),
        LoadStep::Resolve(EntryPoint::ImageTargetTexture2d),
        LoadStep::ResolveGl,
    ];
    assert(steps@ =~= load_steps());
    steps
}

/// Every source that a step asks was made available by an earlier step.
pub proof fn lemma_sources_are_available(at: int, source: int)
    requires
        0 <= at < load_steps().len(),
        lookup_of(load_steps()[at]) is Some,
        0 <= source < lookup_of(load_steps()[at])->0.sources().len(),
    ensures
        exists|earlier: int|
            0 <= earlier < at && #[trigger] load_steps()[earlier] == provider_of(
                lookup_of(load_steps()[at])->0.sources()[source],
            ),
{
    assert(load_steps()[0] == provider_of(SymbolSource::Library(Library::Egl)));
    assert(load_steps()[1] == provider_of(SymbolSource::Library(Library::Gles)));
    assert(load_steps()[2] == provider_of(SymbolSource::ProcAddress));
    assert(2 <= at < 8);
}

/// A required entry point is the one that EGL exports, else the one that GLES
/// exports, else what `eglGetProcAddress` knows; `eglGetProcAddress` is asked
/// only where neither library exports the symbol, and its null answer means
/// that there is none. A library that exports a null address is passed over.
pub proof fn lemma_required_search(egl: Option<usize>, gles: Option<usize>, resolved: usize)
    ensures
        Lookup::Required.step_after(seq![]) == SearchStep::Ask(SymbolSource::Library(Library::Egl)),
        Lookup::Required.step_after(seq![egl]) == match egl {
            Some(address) if address != 0 => SearchStep::Found(address),
            _ => SearchStep::Ask(SymbolSource::Library(Library::Gles)),
        },
        (egl is None || egl == Some(0usize)) ==> Lookup::Required.step_after(seq![egl, gles])
            == match gles {
            Some(address) if address != 0 => SearchStep::Found(address),
            _ => SearchStep::Ask(SymbolSource::ProcAddress),
        },
        (egl is None || egl == Some(0usize)) && (gles is None || gles == Some(0usize))
            ==> Lookup::Required.step_after(seq![egl, gles, Some(resolved)]) == if resolved != 0 {
            SearchStep::Found(resolved)
        } else {
            SearchStep::Unavailable
        },
{
}

/// A search ends with the first address that ends it, whatever was answered
/// after it.
pub proof fn lemma_first_address_wins(lookup: Lookup, address: usize, later: Seq<Option<usize>>)
    requires
        address != 0,
    ensures
        lookup.step_after(seq![Some(address)] + later) == SearchStep::Found(address),
        lookup != Lookup::EglLibrary ==> lookup.step_after(
            seq![None::<usize>, Some(address)] + later,
        ) == SearchStep::Found(address),
{
}

/// The resolver itself is the one that EGL exports, and no other source is
/// asked for it.
pub proof fn lemma_resolver_search(egl: Option<usize>)
    ensures
        EntryPoint::GetProcAddress.spec_lookup().step_after(seq![]) == SearchStep::Ask(
            SymbolSource::Library(Library::Egl),
        ),
        EntryPoint::GetProcAddress.spec_lookup().step_after(seq![egl]) == match egl {
            Some(address) if address != 0 => SearchStep::Found(address),
            _ => SearchStep::Unavailable,
        },
{
}

/// The search for an entry point that an import calls never ends with a null
/// address, whatever the sources answer: it finds something to call, or nothing.
pub proof fn lemma_entry_points_are_never_null(entry_point: EntryPoint, answers: Seq<Option<usize>>)
    ensures
        entry_point.spec_lookup().step_after(answers) != SearchStep::Found(0),
{
}

/// An optional entry point is found in the same order. A null address exported
/// by a library does not end the search, and the search always ends with an
/// address, which is null where nobody knows the symbol.
pub proof fn lemma_optional_search(egl: Option<usize>, gles: Option<usize>, resolved: usize)
    ensures
        Lookup::Optional.step_after(seq![]) == SearchStep::Ask(SymbolSource::Library(Library::Egl)),
        Lookup::Optional.step_after(seq![egl]) == match egl {
            Some(address) if address != 0 => SearchStep::Found(address),
            _ => SearchStep::Ask(SymbolSource::Library(Library::Gles)),
        },
        (egl is None || egl == Some(0usize)) ==> Lookup::Optional.step_after(seq![egl, gles])
            == match gles {
            Some(address) if address != 0 => SearchStep::Found(address),
            _ => SearchStep::Ask(SymbolSource::ProcAddress),
        },
        (egl is None || egl == Some(0usize)) && (gles is None || gles == Some(0usize))
            ==> Lookup::Optional.step_after(seq![egl, gles, Some(resolved)]) == SearchStep::Found(
            resolved,
        ),
{
}

} // verus!
