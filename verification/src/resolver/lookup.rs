//! Name lookup over the open scopes.

use vstd::prelude::*;
use crate::air::table::{find_id, find_name};
use crate::air::{
    clone_type, clone_variable, clone_variables, lemma_view_function_table_index,
    lemma_view_function_table_keys, lemma_view_module_table_index, lemma_view_module_table_keys,
    lemma_view_type_table_index, lemma_view_type_table_keys, lemma_view_variables_index,
    view_function, view_function_table, view_item, view_module, view_module_table, view_type_table,
    view_variables, Context, Function, FunctionTable, Item, ItemView, Module, ModuleTable,
    TypeTable, Variable,
};
use crate::identifier::Symbol;
use super::model;
use super::scope::{view_blocks, view_functions, view_modules, BlockScope};

verus! {

/// What an item, or the lack of one, stands for.
pub open spec fn view_found(item: Option<Item>) -> Option<ItemView> {
    match item {
        Some(item) => Some(item@),
        None => None,
    }
}

/// The profile of a function: a copy of the function without its body.
pub fn profile(f: &Function) -> (p: Function)
    ensures
        p@ == model::profile_of(f@),
{
    proof {
        reveal_with_fuel(view_function, 2);
    }
    Function {
        symbol: f.symbol.clone(),
        formals: clone_variables(&f.formals),
        ret: clone_type(&f.ret),
        body: None,
    }
}

/// The profile of a module: its symbol alone.
pub fn module_profile(symbol: &Symbol) -> (m: Module)
    ensures
        m@ == model::module_profile(symbol@),
{
    let m = Module {
        symbol: symbol.clone(),
        function_table: FunctionTable::new(),
        module_table: ModuleTable::new(),
        type_table: TypeTable::new(),
    };
    proof {
        reveal_with_fuel(view_module, 2);
        assert(view_function_table(m.function_table@) =~= Seq::empty());
        assert(view_module_table(m.module_table@) =~= Seq::empty());
        assert(view_type_table(m.type_table@) =~= Seq::empty());
    }
    m
}

/// The variable that a name refers to among the given ones.
pub fn lookup_variables(variables: &Vec<Variable>, name: &String) -> (found: Option<Item>)
    ensures
        view_found(found) == model::lookup_variables(view_variables(variables@), name@),
{
    let ghost vs = view_variables(variables@);
    let mut i: usize = variables.len();
    while i > 0
        invariant
            i <= variables.len(),
            vs == view_variables(variables@),
            vs.len() == variables.len(),
            model::last_named(vs, name@, vs.len() as int) == model::last_named(vs, name@, i as int),
        decreases i,
    {
        proof {
            lemma_view_variables_index(variables@, i - 1);
        }
        if variables[i - 1].symbol.identifier.name == *name {
            let item = Item::Variable(Box::new(clone_variable(&variables[i - 1])));
            proof {
                reveal_with_fuel(view_item, 2);
            }
            return Some(item);
        }
        i -= 1;
    }
    None
}

/// The declaration that a name refers to in the tables of one scope.
pub fn lookup_tables(
    functions: &FunctionTable,
    modules: &ModuleTable,
    types: &TypeTable,
    name: &String,
) -> (found: Option<Item>)
    ensures
        view_found(found) == model::lookup_tables(
            view_function_table(functions@),
            view_module_table(modules@),
            view_type_table(types@),
            name@,
        ),
{
    proof {
        lemma_view_function_table_keys(functions@);
        lemma_view_module_table_keys(modules@);
        lemma_view_type_table_keys(types@);
        reveal_with_fuel(view_item, 2);
    }
    match find_name(functions, name) {
        Some(i) => {
            proof {
                lemma_view_function_table_index(functions@, i as int);
            }
            Some(Item::Function(Box::new(profile(&functions[i].1))))
        },
        None => match find_name(modules, name) {
            Some(i) => {
                proof {
                    lemma_view_module_table_index(modules@, i as int);
                    reveal_with_fuel(view_module, 2);
                }
                Some(Item::Module(Box::new(module_profile(&modules[i].1.symbol))))
            },
            None => match find_name(types, name) {
                Some(i) => {
                    proof {
                        lemma_view_type_table_index(types@, i as int);
                    }
                    Some(Item::Type(Box::new(clone_type(&types[i].1))))
                },
                None => None,
            },
        },
    }
}

/// What a name refers to in one open block.
pub fn lookup_block(scope: &BlockScope, name: &String) -> (found: Option<Item>)
    ensures
        view_found(found) == model::lookup_block(scope@, name@),
{
    match lookup_variables(&scope.variables, name) {
        Some(item) => Some(item),
        None => lookup_tables(&scope.function_table, &scope.module_table, &scope.type_table, name),
    }
}

/// What a name refers to in the open blocks, the innermost first.
pub fn lookup_blocks(blocks: &Vec<BlockScope>, name: &String) -> (found: Option<Item>)
    ensures
        view_found(found) == model::lookup_blocks(
            view_blocks(blocks@),
            name@,
            blocks.len() as int,
        ),
{
    let ghost bs = view_blocks(blocks@);
    let mut i: usize = blocks.len();
    while i > 0
        invariant
            i <= blocks.len(),
            bs == view_blocks(blocks@),
            model::lookup_blocks(bs, name@, blocks.len() as int) == model::lookup_blocks(
                bs,
                name@,
                i as int,
            ),
        decreases i,
    {
        match lookup_block(&blocks[i - 1], name) {
            Some(item) => {
                return Some(item);
            },
            None => {},
        }
        i -= 1;
    }
    None
}

/// What a name refers to among the formals of the open functions, the
/// innermost function first.
pub fn lookup_functions(functions: &Vec<Function>, name: &String) -> (found: Option<Item>)
    ensures
        view_found(found) == model::lookup_functions(
            view_functions(functions@),
            name@,
            functions.len() as int,
        ),
{
    let ghost fs = view_functions(functions@);
    let mut i: usize = functions.len();
    while i > 0
        invariant
            i <= functions.len(),
            fs == view_functions(functions@),
            model::lookup_functions(fs, name@, functions.len() as int) == model::lookup_functions(
                fs,
                name@,
                i as int,
            ),
        decreases i,
    {
        proof {
            reveal_with_fuel(view_function, 2);
        }
        match lookup_variables(&functions[i - 1].formals, name) {
            Some(item) => {
                return Some(item);
            },
            None => {},
        }
        i -= 1;
    }
    None
}

/// What a name refers to among the declarations of the open modules, the
/// innermost module first.
pub fn lookup_modules(modules: &Vec<Module>, name: &String) -> (found: Option<Item>)
    ensures
        view_found(found) == model::lookup_modules(
            view_modules(modules@),
            name@,
            modules.len() as int,
        ),
{
    let ghost ms = view_modules(modules@);
    let mut i: usize = modules.len();
    while i > 0
        invariant
            i <= modules.len(),
            ms == view_modules(modules@),
            model::lookup_modules(ms, name@, modules.len() as int) == model::lookup_modules(
                ms,
                name@,
                i as int,
            ),
        decreases i,
    {
        proof {
            reveal_with_fuel(view_module, 2);
        }
        let m = &modules[i - 1];
        match lookup_tables(&m.function_table, &m.module_table, &m.type_table, name) {
            Some(item) => {
                return Some(item);
            },
            None => {},
        }
        i -= 1;
    }
    None
}

/// What a name refers to inside an item.
pub fn lookup_member(context: &Context, item: &Item, name: &String) -> (found: Option<Item>)
    ensures
        view_found(found) == model::lookup_member(context@, item@, name@),
{
    proof {
        reveal_with_fuel(view_item, 2);
        reveal_with_fuel(view_module, 2);
        lemma_view_module_table_keys(context.module_table@);
    }
    match item {
        Item::Module(m) => match find_id(&context.module_table, m.symbol.identifier.id) {
            Some(i) => {
                proof {
                    lemma_view_module_table_index(context.module_table@, i as int);
                }
                let full = &context.module_table[i].1;
                lookup_tables(&full.function_table, &full.module_table, &full.type_table, name)
            },
            None => None,
        },
        _ => None,
    }
}

} // verus!
