use vstd::prelude::*;
use crate::config::ConfigStore;
use crate::loader::{ProcessorKind, Registry};
use crate::parsers::ProcessorArgs;
use crate::processor::{ProcessError, ProcessPlan, Processor};
use crate::value::{has_key, table_get, table_lookup, ConfigValue};

verus! {

/// Why a request cannot be dispatched.
#[derive(Debug, PartialEq, Eq)]
pub enum DispatchError {
    /// No section of a registered processor holds the requested template.
    NotFound(String),
    /// The matching processor refused the template's entry.
    Invalid(ProcessError),
}

/// The section is a table holding `template`, and is named after a registered
/// processor.
pub open spec fn section_matches(
    reg: Registry,
    section: (String, ConfigValue),
    template: Seq<char>,
) -> bool {
    match section.1 {
        ConfigValue::Table(t) => has_key(t@, template) && reg.names().contains(section.0@),
        _ => false,
    }
}

pub open spec fn has_match(
    reg: Registry,
    sections: Seq<(String, ConfigValue)>,
    template: Seq<char>,
) -> bool {
    exists|i: int| 0 <= i < sections.len() && section_matches(reg, #[trigger] sections[i], template)
}

/// `i` is the first section that matches `template`.
pub open spec fn is_first_match(
    reg: Registry,
    sections: Seq<(String, ConfigValue)>,
    template: Seq<char>,
    i: int,
) -> bool {
    &&& 0 <= i < sections.len()
    &&& section_matches(reg, sections[i], template)
    &&& forall|j: int| 0 <= j < i ==> !section_matches(reg, #[trigger] sections[j], template)
}

/// The entry of `template` in a section's table.
pub open spec fn template_entry(section: (String, ConfigValue), template: Seq<char>) -> ConfigValue {
    match section.1 {
        ConfigValue::Table(t) => table_get(t@, template).unwrap(),
        _ => ConfigValue::Other,
    }
}

/// The processor and the entry that a request for `template` resolves to: those
/// of the first matching section, in declared order.
pub open spec fn resolve(
    reg: Registry,
    sections: Seq<(String, ConfigValue)>,
    template: Seq<char>,
) -> Option<(ProcessorKind, ConfigValue)> {
    if has_match(reg, sections, template) {
        let i = choose|i: int| is_first_match(reg, sections, template, i);
        Some((reg.get(sections[i].0@).unwrap(), template_entry(sections[i], template)))
    } else {
        None
    }
}

/// `r` is the answer of `p` to `prog_args` and `entry`, passed on unchanged.
pub open spec fn passes_on(
    p: ProcessorKind,
    prog_args: ProcessorArgs,
    entry: ConfigValue,
    r: Result<ProcessPlan, DispatchError>,
) -> bool {
    match r {
        Ok(plan) => p.plans(prog_args, entry, Ok(plan)),
        Err(DispatchError::Invalid(e)) => p.plans(prog_args, entry, Err(e)),
        Err(DispatchError::NotFound(_)) => false,
    }
}

proof fn lemma_first_match_unique(
    reg: Registry,
    sections: Seq<(String, ConfigValue)>,
    template: Seq<char>,
    i: int,
)
    requires
        is_first_match(reg, sections, template, i),
    ensures
        has_match(reg, sections, template),
        (choose|k: int| is_first_match(reg, sections, template, k)) == i,
{
    assert(section_matches(reg, sections[i], template));
    let k = choose|k: int| is_first_match(reg, sections, template, k);
    assert(is_first_match(reg, sections, template, k));
    if k < i {
        assert(!section_matches(reg, sections[k], template));
    } else if i < k {
        assert(!section_matches(reg, sections[i], template));
    }
}

/// When exactly one section matches `template`, the request resolves to that
/// section's processor and to the template's entry in it.
pub proof fn lemma_single_match_resolves(
    reg: Registry,
    sections: Seq<(String, ConfigValue)>,
    template: Seq<char>,
    i: int,
)
    requires
        0 <= i < sections.len(),
        section_matches(reg, sections[i], template),
        forall|j: int|
            0 <= j < sections.len() && j != i ==> !section_matches(
                reg,
                #[trigger] sections[j],
                template,
            ),
    ensures
        resolve(reg, sections, template) == Some(
            (reg.get(sections[i].0@).unwrap(), template_entry(sections[i], template)),
        ),
{
    lemma_first_match_unique(reg, sections, template, i);
}

/// Finds the first section, in declared order, that is a table holding
/// `template` and is named after a registered processor.
pub fn find_section(processors: &Registry, configs: &ConfigStore, template: &String) -> (r: Option<
    usize,
>)
    requires
        processors.wf(),
    ensures
        match r {
            Some(i) => is_first_match(*processors, configs.sections@, template@, i as int),
            None => !has_match(*processors, configs.sections@, template@),
        },
{
    let mut i: usize = 0;
    while i < configs.sections.len()
        invariant
            processors.wf(),
            i <= configs.sections@.len(),
            forall|j: int|
                0 <= j < i ==> !section_matches(
                    *processors,
                    #[trigger] configs.sections@[j],
                    template@,
                ),
        decreases configs.sections.len() - i,
    {
        let section = &configs.sections[i];
        match &section.1 {
            ConfigValue::Table(t) => {
                let holds = match table_lookup(t, template) {
                    Some(_) => true,
                    None => false,
                };
                if holds && processors.contains(&section.0) {
                    assert(has_key(t@, template@));
                    return Some(i);
                }
            },
            _ => {},
        }
        i = i + 1;
    }
    None
}

/// Resolves the request against the configuration and the registry and hands
/// it to the processor of the first matching section, whose answer is passed
/// on unchanged; a request that matches no section is not found.
pub fn execute_processor(processors: &Registry, configs: &ConfigStore, args: ProcessorArgs) -> (r:
    Result<ProcessPlan, DispatchError>)
    requires
        processors.wf(),
    ensures
        match resolve(*processors, configs.sections@, args.template@) {
            None => r == Err::<ProcessPlan, DispatchError>(DispatchError::NotFound(args.template)),
            Some((p, entry)) => passes_on(p, args, entry, r),
        },
{
    match find_section(processors, configs, &args.template) {
        None => Err(DispatchError::NotFound(args.template)),
        Some(i) => {
            proof {
                lemma_first_match_unique(*processors, configs.sections@, args.template@, i as int);
            }
            let section = &configs.sections[i];
            match &section.1 {
                ConfigValue::Table(t) => {
                    match (table_lookup(t, &args.template), processors.lookup(&section.0)) {
                        (Some(entry), Some(p)) => match p.process(args, entry) {
                            Ok(plan) => Ok(plan),
                            Err(e) => Err(DispatchError::Invalid(e)),
                        },
                        _ => Err(DispatchError::NotFound(args.template)),
                    }
                },
                _ => Err(DispatchError::NotFound(args.template)),
            }
        },
    }
}

} // verus!
