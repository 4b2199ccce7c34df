//! The definitions that references point to, collected from a finished
//! document so that they can be looked up while it is rendered.

use vstd::prelude::*;
use crate::ast::{Block, Document, FootnoteDefinition, Inline, LinkDefinition, ListItem};
use crate::ast::equal::inlines_equal;
use crate::parser::chars::chars_of;
use crate::ast::model::{
    blocks_model, inlines_model, items_model, BlockModel, DocumentModel, InlineModel,
    ListItemModel,
};

verus! {

/// Compares two string slices.
pub fn str_equal(a: &str, b: &str) -> (r: bool)
    ensures
        r == (a@ == b@),
{
    let x = chars_of(a);
    let y = chars_of(b);
    if x.len() != y.len() {
        return false;
    }
    let mut k: usize = 0;
    while k < x.len()
        invariant
            k <= x.len(),
            x.len() == y.len(),
            x@ == a@,
            y@ == b@,
            forall|j: int| 0 <= j < k ==> x@[j] == y@[j],
        decreases x.len() - k,
    {
        if x[k] != y[k] {
            assert(a@[k as int] != b@[k as int]);
            return false;
        }
        k += 1;
    }
    assert(x@ =~= y@);
    true
}

/// Model of the two indices: for each footnote label and for each link
/// label the definition that is found under it; and how many footnote
/// definitions were entered, those counted too that a later one of the
/// same label hides.
pub struct IndexModel {
    pub footnotes: Map<Seq<char>, BlockModel>,
    pub links: Map<Seq<InlineModel>, BlockModel>,
    pub entered: nat,
}

/// The indices after the block `b` is passed. A footnote definition and a
/// link definition are entered under their labels, in the place of what
/// stood there. Every block that holds blocks is searched: a list, a block
/// quote, an alert, a container, and the body of a footnote definition
/// once the definition itself is entered.
pub open spec fn index_block(b: BlockModel, acc: IndexModel) -> IndexModel
    decreases b, 0nat,
{
    match b {
        BlockModel::FootnoteDefinition { label, blocks } => index_blocks(
            blocks,
            0,
            IndexModel {
                footnotes: acc.footnotes.insert(label, b),
                links: acc.links,
                entered: acc.entered + 1,
            },
        ),
        BlockModel::Definition { label, destination, title } => IndexModel {
            footnotes: acc.footnotes,
            links: acc.links.insert(label, b),
            entered: acc.entered,
        },
        BlockModel::List { kind, items } => index_items(items, 0, acc),
        BlockModel::BlockQuote(blocks) => index_blocks(blocks, 0, acc),
        BlockModel::GitHubAlert { alert_type, blocks } => index_blocks(blocks, 0, acc),
        BlockModel::Container { kind, params, blocks } => index_blocks(blocks, 0, acc),
        _ => acc,
    }
}

/// The indices after the blocks from `i` on are passed, in order.
pub open spec fn index_blocks(blocks: Seq<BlockModel>, i: int, acc: IndexModel) -> IndexModel
    decreases blocks, blocks.len() - i,
{
    if i < 0 || i >= blocks.len() {
        acc
    } else {
        index_blocks(blocks, i + 1, index_block(blocks[i], acc))
    }
}

/// The indices after the list items from `j` on are passed, in order.
pub open spec fn index_items(items: Seq<ListItemModel>, j: int, acc: IndexModel) -> IndexModel
    decreases items, items.len() - j,
{
    if j < 0 || j >= items.len() {
        acc
    } else {
        index_items(items, j + 1, index_blocks(items[j].blocks, 0, acc))
    }
}

/// The indices with nothing in them.
pub open spec fn empty_index() -> IndexModel {
    IndexModel { footnotes: Map::empty(), links: Map::empty(), entered: 0 }
}

/// The indices of a document: where a label is defined more than once, the
/// definition that comes last in the document is found under it.
pub open spec fn index_of(doc: DocumentModel) -> IndexModel {
    index_blocks(doc.blocks, 0, empty_index())
}

/// What is found under a link label stays found when a block is passed.
pub proof fn lemma_index_block_keeps(b: BlockModel, acc: IndexModel, key: Seq<InlineModel>)
    requires
        acc.links.contains_key(key),
    ensures
        index_block(b, acc).links.contains_key(key),
    decreases b, 0nat,
{
    match b {
        BlockModel::List { kind, items } => lemma_index_items_keeps(items, 0, acc, key),
        BlockModel::BlockQuote(blocks) => lemma_index_blocks_keeps(blocks, 0, acc, key),
        BlockModel::GitHubAlert { alert_type, blocks } => lemma_index_blocks_keeps(
            blocks,
            0,
            acc,
            key,
        ),
        BlockModel::Container { kind, params, blocks } => lemma_index_blocks_keeps(
            blocks,
            0,
            acc,
            key,
        ),
        BlockModel::FootnoteDefinition { label, blocks } => lemma_index_blocks_keeps(
            blocks,
            0,
            IndexModel {
                footnotes: acc.footnotes.insert(label, b),
                links: acc.links,
                entered: acc.entered + 1,
            },
            key,
        ),
        _ => {},
    }
}

/// What is found under a link label stays found when blocks are passed.
pub proof fn lemma_index_blocks_keeps(
    blocks: Seq<BlockModel>,
    i: int,
    acc: IndexModel,
    key: Seq<InlineModel>,
)
    requires
        acc.links.contains_key(key),
    ensures
        index_blocks(blocks, i, acc).links.contains_key(key),
    decreases blocks, blocks.len() - i,
{
    if 0 <= i < blocks.len() {
        lemma_index_block_keeps(blocks[i], acc, key);
        lemma_index_blocks_keeps(blocks, i + 1, index_block(blocks[i], acc), key);
    }
}

/// What is found under a link label stays found when list items are
/// passed.
pub proof fn lemma_index_items_keeps(
    items: Seq<ListItemModel>,
    j: int,
    acc: IndexModel,
    key: Seq<InlineModel>,
)
    requires
        acc.links.contains_key(key),
    ensures
        index_items(items, j, acc).links.contains_key(key),
    decreases items, items.len() - j,
{
    if 0 <= j < items.len() {
        lemma_index_blocks_keeps(items[j].blocks, 0, acc, key);
        lemma_index_items_keeps(items, j + 1, index_blocks(items[j].blocks, 0, acc), key);
    }
}

/// The walk from block `i` on enters the link definition that is block
/// `k`, and it stays entered.
pub proof fn lemma_index_reaches(blocks: Seq<BlockModel>, i: int, k: int, acc: IndexModel)
    requires
        0 <= i <= k < blocks.len(),
        blocks[k] is Definition,
    ensures
        blocks[k] matches BlockModel::Definition { label, .. } && index_blocks(
            blocks,
            i,
            acc,
        ).links.contains_key(label),
    decreases k - i,
{
    if i == k {
        match blocks[k] {
            BlockModel::Definition { label, destination, title } => {
                let next = index_block(blocks[k], acc);
                assert(next.links.contains_key(label));
                lemma_index_blocks_keeps(blocks, k + 1, next, label);
            },
            _ => {},
        }
    } else {
        lemma_index_reaches(blocks, i + 1, k, index_block(blocks[i], acc));
    }
}

/// A link reference resolves if a definition with its label stands among
/// the blocks of the document: the label of every such definition is found
/// in the index.
pub proof fn lemma_definition_resolves(doc: DocumentModel, k: int)
    requires
        0 <= k < doc.blocks.len(),
        doc.blocks[k] is Definition,
    ensures
        doc.blocks[k] matches BlockModel::Definition { label, .. } && index_of(
            doc,
        ).links.contains_key(label),
{
    lemma_index_reaches(doc.blocks, 0, k, empty_index());
}

/// A definition inside a block that holds blocks is found too: where block
/// `k` of the document is a container, a block quote or an alert, and block
/// `j` inside it is a link definition, the label of that definition is
/// found in the index.
pub proof fn lemma_nested_definition_resolves(doc: DocumentModel, k: int, j: int)
    requires
        0 <= k < doc.blocks.len(),
        held_blocks(doc.blocks[k]) is Some,
        0 <= j < held_blocks(doc.blocks[k])->0.len(),
        held_blocks(doc.blocks[k])->0[j] is Definition,
    ensures
        held_blocks(doc.blocks[k])->0[j] matches BlockModel::Definition { label, .. } && index_of(
            doc,
        ).links.contains_key(label),
{
    let inner = held_blocks(doc.blocks[k])->0;
    let label = inner[j]->Definition_label;
    lemma_index_prefix(doc.blocks, 0, k, empty_index());
    let acc = index_blocks(doc.blocks.take(k), 0, empty_index());
    lemma_index_reaches(inner, 0, j, acc);
    assert(index_block(doc.blocks[k], acc).links.contains_key(label));
    lemma_index_blocks_keeps(doc.blocks, k + 1, index_block(doc.blocks[k], acc), label);
}

/// The blocks that a container, a block quote or an alert holds.
pub open spec fn held_blocks(b: BlockModel) -> Option<Seq<BlockModel>> {
    match b {
        BlockModel::Container { kind, params, blocks } => Some(blocks),
        BlockModel::BlockQuote(blocks) => Some(blocks),
        BlockModel::GitHubAlert { alert_type, blocks } => Some(blocks),
        _ => None,
    }
}

/// The walk from block `i` on is the walk of the blocks before `k`,
/// followed by the walk from `k` on.
pub proof fn lemma_index_prefix(blocks: Seq<BlockModel>, i: int, k: int, acc: IndexModel)
    requires
        0 <= i <= k <= blocks.len(),
    ensures
        index_blocks(blocks, i, acc) == index_blocks(
            blocks,
            k,
            index_blocks(blocks.take(k), i, acc),
        ),
    decreases k - i,
{
    if i < k {
        assert(blocks.take(k)[i] == blocks[i]);
        lemma_index_prefix(blocks, i + 1, k, index_block(blocks[i], acc));
    }
}

/// A document without blocks defines nothing: no reference resolves.
pub proof fn lemma_nothing_defined(doc: DocumentModel, key: Seq<InlineModel>)
    requires
        doc.blocks.len() == 0,
    ensures
        !index_of(doc).links.contains_key(key),
{
}

/// The two indices of a document. A definition entered later hides an
/// earlier one of the same label.
pub struct Indices {
    footnotes: Vec<FootnoteDefinition>,
    links: Vec<LinkDefinition>,
}

/// The map that footnote definitions make, entered in order.
pub open spec fn footnote_map(entries: Seq<FootnoteDefinition>) -> Map<Seq<char>, BlockModel>
    decreases entries.len(),
{
    if entries.len() == 0 {
        Map::empty()
    } else {
        footnote_map(entries.drop_last()).insert(entries.last().label@, entries.last()@)
    }
}

/// The map that link definitions make, entered in order.
pub open spec fn link_map(entries: Seq<LinkDefinition>) -> Map<Seq<InlineModel>, BlockModel>
    decreases entries.len(),
{
    if entries.len() == 0 {
        Map::empty()
    } else {
        link_map(entries.drop_last()).insert(
            inlines_model(entries.last().label@),
            entries.last()@,
        )
    }
}

impl View for Indices {
    type V = IndexModel;

    closed spec fn view(&self) -> IndexModel {
        IndexModel {
            footnotes: footnote_map(self.footnotes@),
            links: link_map(self.links@),
            entered: self.footnotes@.len(),
        }
    }
}

impl Indices {
    /// Indices with nothing in them.
    pub fn new() -> (r: Self)
        ensures
            r@ == empty_index(),
    {
        Indices { footnotes: Vec::new(), links: Vec::new() }
    }

    /// Enters a footnote definition under its label.
    pub fn insert_footnote(&mut self, def: FootnoteDefinition)
        ensures
            final(self)@ == (IndexModel {
                footnotes: old(self)@.footnotes.insert(def.label@, def@),
                links: old(self)@.links,
                entered: old(self)@.entered + 1,
            }),
    {
        let ghost before = self.footnotes@;
        self.footnotes.push(def);
        assert(self.footnotes@.drop_last() =~= before);
    }

    /// Enters a link definition under its label.
    pub fn insert_link(&mut self, def: LinkDefinition)
        ensures
            final(self)@ == (IndexModel {
                footnotes: old(self)@.footnotes,
                links: old(self)@.links.insert(inlines_model(def.label@), def@),
                entered: old(self)@.entered,
            }),
    {
        let ghost before = self.links@;
        self.links.push(def);
        assert(self.links@.drop_last() =~= before);
    }

    /// How many footnote definitions were entered.
    pub fn footnotes_entered(&self) -> (r: usize)
        ensures
            r == self@.entered,
    {
        self.footnotes.len()
    }

    /// The footnote definition that is found under `label`, if there is
    /// one.
    pub fn get_footnote_definition(&self, label: &str) -> (r: Option<&FootnoteDefinition>)
        ensures
            match r {
                Some(d) => self@.footnotes.contains_key(label@) && self@.footnotes[label@] == d@,
                None => !self@.footnotes.contains_key(label@),
            },
    {
        let mut k = self.footnotes.len();
        assert(self.footnotes@.take(k as int) =~= self.footnotes@);
        while k > 0
            invariant
                k <= self.footnotes.len(),
                footnote_map(self.footnotes@).contains_key(label@) == footnote_map(
                    self.footnotes@.take(k as int),
                ).contains_key(label@),
                footnote_map(self.footnotes@).contains_key(label@) ==> footnote_map(
                    self.footnotes@,
                )[label@] == footnote_map(self.footnotes@.take(k as int))[label@],
            decreases k,
        {
            let ghost prefix = self.footnotes@.take(k as int);
            assert(prefix.drop_last() =~= self.footnotes@.take(k - 1));
            assert(prefix.last() == self.footnotes@[k - 1]);
            if str_equal(self.footnotes[k - 1].label.as_str(), label) {
                return Some(&self.footnotes[k - 1]);
            }
            k -= 1;
        }
        None
    }

    /// The link definition that is found under `label`, if there is one.
    /// Labels are compared as the inline sequences that they are.
    pub fn get_link_definition(&self, label: &Vec<Inline>) -> (r: Option<&LinkDefinition>)
        ensures
            match r {
                Some(d) => self@.links.contains_key(inlines_model(label@))
                    && self@.links[inlines_model(label@)] == d@,
                None => !self@.links.contains_key(inlines_model(label@)),
            },
    {
        let ghost key = inlines_model(label@);
        let mut k = self.links.len();
        assert(self.links@.take(k as int) =~= self.links@);
        while k > 0
            invariant
                k <= self.links.len(),
                key == inlines_model(label@),
                link_map(self.links@).contains_key(key) == link_map(
                    self.links@.take(k as int),
                ).contains_key(key),
                link_map(self.links@).contains_key(key) ==> link_map(self.links@)[key] == link_map(
                    self.links@.take(k as int),
                )[key],
            decreases k,
        {
            let ghost prefix = self.links@.take(k as int);
            assert(prefix.drop_last() =~= self.links@.take(k - 1));
            assert(prefix.last() == self.links@[k - 1]);
            if inlines_equal(&self.links[k - 1].label, label) {
                return Some(&self.links[k - 1]);
            }
            k -= 1;
        }
        None
    }
}

fn collect_block(block: &Block, acc: &mut Indices)
    ensures
        final(acc)@ == index_block(block@, old(acc)@),
    decreases block, 0nat,
{
    match block {
        Block::FootnoteDefinition(def) => {
            acc.insert_footnote(def.clone());
            collect_blocks(&def.blocks, acc);
        },
        Block::Definition(def) => {
            acc.insert_link(def.clone());
        },
        Block::List(list) => {
            collect_items(&list.items, acc);
        },
        Block::BlockQuote(blocks) => {
            collect_blocks(blocks, acc);
        },
        Block::GitHubAlert(alert) => {
            collect_blocks(&alert.blocks, acc);
        },
        Block::Container(container) => {
            collect_blocks(&container.blocks, acc);
        },
        _ => {},
    }
}

fn collect_items(items: &Vec<ListItem>, acc: &mut Indices)
    ensures
        final(acc)@ == index_items(items_model(items@), 0, old(acc)@),
    decreases items, items.len(),
{
    let mut j: usize = 0;
    while j < items.len()
        invariant
            j <= items.len(),
            index_items(items_model(items@), 0, old(acc)@) == index_items(
                items_model(items@),
                j as int,
                acc@,
            ),
        decreases items.len() - j,
    {
        assert(items_model(items@)[j as int].blocks == blocks_model(items@[j as int].blocks@));
        collect_blocks(&items[j].blocks, acc);
        j += 1;
    }
}

fn collect_blocks(blocks: &Vec<Block>, acc: &mut Indices)
    ensures
        final(acc)@ == index_blocks(blocks_model(blocks@), 0, old(acc)@),
    decreases blocks, blocks.len(),
{
    let mut i: usize = 0;
    while i < blocks.len()
        invariant
            i <= blocks.len(),
            index_blocks(blocks_model(blocks@), 0, old(acc)@) == index_blocks(
                blocks_model(blocks@),
                i as int,
                acc@,
            ),
        decreases blocks.len() - i,
    {
        collect_block(&blocks[i], acc);
        i += 1;
    }
}

/// Collects the footnote definitions and the link definitions of a
/// document, by one walk through its blocks in their order.
pub fn get_indices(ast: &Document) -> (r: Indices)
    ensures
        r@ == index_of(ast@),
{
    let mut acc = Indices::new();
    collect_blocks(&ast.blocks, &mut acc);
    acc
}

} // verus!
