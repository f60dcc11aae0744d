//! Resource types of the symbol objects, and their names on the host.
use vstd::prelude::*;

verus! {

/// A resource that symbol containers hold and symbol decoders accept.
#[derive(Clone, Copy, Debug, PartialEq, Eq, Structural, Hash)]
pub enum ResourceType {
    Score,
    SymbolAleph,
    SymbolBeth,
    SymbolGimmel,
    SymbolDaleth,
    SymbolHe,
    SymbolWaw,
    SymbolZayin,
    SymbolHeth,
    SymbolTeth,
    SymbolYodh,
    SymbolKaph,
    SymbolLamedh,
    SymbolMem,
    SymbolNun,
    SymbolSamekh,
    SymbolAyin,
    SymbolPe,
    SymbolTsade,
    SymbolQoph,
    SymbolRes,
    SymbolSim,
    SymbolTaw,
}

/// The name under which the host knows a resource type.
pub open spec fn spec_resource_name(t: ResourceType) -> Seq<char> {
    match t {
        ResourceType::Score => seq!('s', 'c', 'o', 'r', 'e'),
        ResourceType::SymbolAleph => seq!('s', 'y', 'm', 'b', 'o', 'l', '_', 'a', 'l', 'e', 'p', 'h'),
        ResourceType::SymbolBeth => seq!('s', 'y', 'm', 'b', 'o', 'l', '_', 'b', 'e', 't', 'h'),
        ResourceType::SymbolGimmel => seq!('s', 'y', 'm', 'b', 'o', 'l', '_', 'g', 'i', 'm', 'm', 'e', 'l'),
        ResourceType::SymbolDaleth => seq!('s', 'y', 'm', 'b', 'o', 'l', '_', 'd', 'a', 'l', 'e', 't', 'h'),
        ResourceType::SymbolHe => seq!('s', 'y', 'm', 'b', 'o', 'l', '_', 'h', 'e'),
        ResourceType::SymbolWaw => seq!('s', 'y', 'm', 'b', 'o', 'l', '_', 'w', 'a', 'w'),
        ResourceType::SymbolZayin => seq!('s', 'y', 'm', 'b', 'o', 'l', '_', 'z', 'a', 'y', 'i', 'n'),
        ResourceType::SymbolHeth => seq!('s', 'y', 'm', 'b', 'o', 'l', '_', 'h', 'e', 't', 'h'),
        ResourceType::SymbolTeth => seq!('s', 'y', 'm', 'b', 'o', 'l', '_', 't', 'e', 't', 'h'),
        ResourceType::SymbolYodh => seq!('s', 'y', 'm', 'b', 'o', 'l', '_', 'y', 'o', 'd', 'h'),
        ResourceType::SymbolKaph => seq!('s', 'y', 'm', 'b', 'o', 'l', '_', 'k', 'a', 'p', 'h'),
        ResourceType::SymbolLamedh => seq!('s', 'y', 'm', 'b', 'o', 'l', '_', 'l', 'a', 'm', 'e', 'd', 'h'),
        ResourceType::SymbolMem => seq!('s', 'y', 'm', 'b', 'o', 'l', '_', 'm', 'e', 'm'),
        ResourceType::SymbolNun => seq!('s', 'y', 'm', 'b', 'o', 'l', '_', 'n', 'u', 'n'),
        ResourceType::SymbolSamekh => seq!('s', 'y', 'm', 'b', 'o', 'l', '_', 's', 'a', 'm', 'e', 'k', 'h'),
        ResourceType::SymbolAyin => seq!('s', 'y', 'm', 'b', 'o', 'l', '_', 'a', 'y', 'i', 'n'),
        ResourceType::SymbolPe => seq!('s', 'y', 'm', 'b', 'o', 'l', '_', 'p', 'e'),
        ResourceType::SymbolTsade => seq!('s', 'y', 'm', 'b', 'o', 'l', '_', 't', 's', 'a', 'd', 'e'),
        ResourceType::SymbolQoph => seq!('s', 'y', 'm', 'b', 'o', 'l', '_', 'q', 'o', 'p', 'h'),
        ResourceType::SymbolRes => seq!('s', 'y', 'm', 'b', 'o', 'l', '_', 'r', 'e', 's'),
        ResourceType::SymbolSim => seq!('s', 'y', 'm', 'b', 'o', 'l', '_', 's', 'i', 'm'),
        ResourceType::SymbolTaw => seq!('s', 'y', 'm', 'b', 'o', 'l', '_', 't', 'a', 'w'),
    }
}

/// Every resource type, each once.
pub open spec fn spec_all_resource_types() -> Seq<ResourceType> {
    seq![
        ResourceType::Score,
        ResourceType::SymbolAleph,
        ResourceType::SymbolBeth,
        ResourceType::SymbolGimmel,
        ResourceType::SymbolDaleth,
        ResourceType::SymbolHe,
        ResourceType::SymbolWaw,
        ResourceType::SymbolZayin,
        ResourceType::SymbolHeth,
        ResourceType::SymbolTeth,
        ResourceType::SymbolYodh,
        ResourceType::SymbolKaph,
        ResourceType::SymbolLamedh,
        ResourceType::SymbolMem,
        ResourceType::SymbolNun,
        ResourceType::SymbolSamekh,
        ResourceType::SymbolAyin,
        ResourceType::SymbolPe,
        ResourceType::SymbolTsade,
        ResourceType::SymbolQoph,
        ResourceType::SymbolRes,
        ResourceType::SymbolSim,
        ResourceType::SymbolTaw,
    ]
}

/// Distinct resource types have distinct names on the host.
pub proof fn lemma_names_distinct(a: ResourceType, b: ResourceType)
    ensures
        spec_resource_name(a) == spec_resource_name(b) ==> a == b,
{
    let na = spec_resource_name(a);
    let nb = spec_resource_name(b);
    if na == nb {
        assert(na.len() == nb.len());
        if na.len() > 8 {
            assert(na[7] == nb[7]);
            assert(na[8] == nb[8]);
        }
    }
}

/// True when the two strings hold the same characters.
fn str_equal(a: &str, b: &str) -> (r: bool)
    ensures
        r == (a@ == b@),
{
    let n: usize = a.unicode_len();
    if n != b.unicode_len() {
        return false;
    }
    let mut i: usize = 0;
    while i < n
        invariant
            n == a@.len(),
            n == b@.len(),
            i <= n,
            forall|j: int| 0 <= j < i ==> a@[j] == b@[j],
        decreases n - i,
    {
        if a.get_char(i) != b.get_char(i) {
            return false;
        }
        i = i + 1;
    }
    assert(a@ =~= b@);
    true
}

impl ResourceType {
    /// All resource types, in declaration order.
    pub fn all() -> (r: Vec<ResourceType>)
        ensures
            r@ == spec_all_resource_types(),
    {
        let r = vec![
            ResourceType::Score,
            ResourceType::SymbolAleph,
            ResourceType::SymbolBeth,
            ResourceType::SymbolGimmel,
            ResourceType::SymbolDaleth,
            ResourceType::SymbolHe,
            ResourceType::SymbolWaw,
            ResourceType::SymbolZayin,
            ResourceType::SymbolHeth,
            ResourceType::SymbolTeth,
            ResourceType::SymbolYodh,
            ResourceType::SymbolKaph,
            ResourceType::SymbolLamedh,
            ResourceType::SymbolMem,
            ResourceType::SymbolNun,
            ResourceType::SymbolSamekh,
            ResourceType::SymbolAyin,
            ResourceType::SymbolPe,
            ResourceType::SymbolTsade,
            ResourceType::SymbolQoph,
            ResourceType::SymbolRes,
            ResourceType::SymbolSim,
            ResourceType::SymbolTaw,
        ];
        assert(r@ =~= spec_all_resource_types());
        r
    }

    /// The name under which the host knows this resource type.
    pub fn name(&self) -> (r: &'static str)
        ensures
            r@ == spec_resource_name(*self),
    {
        match self {
            ResourceType::Score => {
                proof {
                    reveal_strlit("score");
                }
                "score"
            },
            ResourceType::SymbolAleph => {
                proof {
                    reveal_strlit("symbol_aleph");
                }
                "symbol_aleph"
            },
            ResourceType::SymbolBeth => {
                proof {
                    reveal_strlit("symbol_beth");
                }
                "symbol_beth"
            },
            ResourceType::SymbolGimmel => {
                proof {
                    reveal_strlit("symbol_gimmel");
                }
                "symbol_gimmel"
            },
            ResourceType::SymbolDaleth => {
                proof {
                    reveal_strlit("symbol_daleth");
                }
                "symbol_daleth"
            },
            ResourceType::SymbolHe => {
                proof {
                    reveal_strlit("symbol_he");
                }
                "symbol_he"
            },
            ResourceType::SymbolWaw => {
                proof {
                    reveal_strlit("symbol_waw");
                }
                "symbol_waw"
            },
            ResourceType::SymbolZayin => {
                proof {
                    reveal_strlit("symbol_zayin");
                }
                "symbol_zayin"
            },
            ResourceType::SymbolHeth => {
                proof {
                    reveal_strlit("symbol_heth");
                }
                "symbol_heth"
            },
            ResourceType::SymbolTeth => {
                proof {
                    reveal_strlit("symbol_teth");
                }
                "symbol_teth"
            },
            ResourceType::SymbolYodh => {
                proof {
                    reveal_strlit("symbol_yodh");
                }
                "symbol_yodh"
            },
            ResourceType::SymbolKaph => {
                proof {
                    reveal_strlit("symbol_kaph");
                }
                "symbol_kaph"
            },
            ResourceType::SymbolLamedh => {
                proof {
                    reveal_strlit("symbol_lamedh");
                }
                "symbol_lamedh"
            },
            ResourceType::SymbolMem => {
                proof {
                    reveal_strlit("symbol_mem");
                }
                "symbol_mem"
            },
            ResourceType::SymbolNun => {
                proof {
                    reveal_strlit("symbol_nun");
                }
                "symbol_nun"
            },
            ResourceType::SymbolSamekh => {
                proof {
                    reveal_strlit("symbol_samekh");
                }
                "symbol_samekh"
            },
            ResourceType::SymbolAyin => {
                proof {
                    reveal_strlit("symbol_ayin");
                }
                "symbol_ayin"
            },
            ResourceType::SymbolPe => {
                proof {
                    reveal_strlit("symbol_pe");
                }
                "symbol_pe"
            },
            ResourceType::SymbolTsade => {
                proof {
                    reveal_strlit("symbol_tsade");
                }
                "symbol_tsade"
            },
            ResourceType::SymbolQoph => {
                proof {
                    reveal_strlit("symbol_qoph");
                }
                "symbol_qoph"
            },
            ResourceType::SymbolRes => {
                proof {
                    reveal_strlit("symbol_res");
                }
                "symbol_res"
            },
            ResourceType::SymbolSim => {
                proof {
                    reveal_strlit("symbol_sim");
                }
                "symbol_sim"
            },
            ResourceType::SymbolTaw => {
                proof {
                    reveal_strlit("symbol_taw");
                }
                "symbol_taw"
            },
        }
    }

    /// The resource type that the host names `s`, if any.
    pub fn from_name(s: &str) -> (r: Option<ResourceType>)
        ensures
            forall|t: ResourceType| (r == Some(t)) == (spec_resource_name(t) == s@),
    {
        let all = ResourceType::all();
        let mut i: usize = 0;
        while i < all.len()
            invariant
                all@ == spec_all_resource_types(),
                i <= all@.len(),
                forall|j: int| 0 <= j < i ==> spec_resource_name(#[trigger] all@[j]) != s@,
            decreases all@.len() - i,
        {
            let t = all[i];
            if str_equal(t.name(), s) {
                proof {
                    assert forall|u: ResourceType| (Some(t) == Some(u)) == (spec_resource_name(u) == s@) by {
                        lemma_names_distinct(t, u);
                    }
                }
                return Some(t);
            }
            i = i + 1;
        }
        assert forall|t: ResourceType| spec_resource_name(t) != s@ by {
            assert(spec_all_resource_types().contains(t));
        }
        None
    }
}

} // verus!
