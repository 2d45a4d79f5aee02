use vstd::prelude::*;
use vstd::arithmetic::div_mod::lemma_fundamental_div_mod_converse;
use crate::back_end::{ColoredBatch, GraphicsView, TexturedBatch, TexturedView};
use crate::draw_state::DrawState;

verus! {

/// The entries of all `pieces`, in order.
pub open spec fn concat<E>(pieces: Seq<Seq<E>>) -> Seq<E>
    decreases pieces.len(),
{
    if pieces.len() == 0 {
        Seq::empty()
    } else {
        concat(pieces.drop_last()) + pieces.last()
    }
}

/// The positions of each draw call of the colour shader.
pub open spec fn call_positions(calls: Seq<ColoredBatch>) -> Seq<Seq<[u32; 2]>> {
    Seq::new(calls.len(), |i: int| calls[i].positions)
}

/// The positions of each piece of a textured fill.
pub open spec fn piece_positions(pieces: Seq<(Seq<[u32; 2]>, Seq<[u32; 2]>)>) -> Seq<Seq<[u32; 2]>> {
    Seq::new(pieces.len(), |i: int| pieces[i].0)
}

/// The texture coordinates of each piece of a textured fill.
pub open spec fn piece_uvs(pieces: Seq<(Seq<[u32; 2]>, Seq<[u32; 2]>)>) -> Seq<Seq<[u32; 2]>> {
    Seq::new(pieces.len(), |i: int| pieces[i].1)
}

/// No piece reaches across a multiple of `capacity`: counted from the first vertex of the
/// first piece, each piece lies within one run of `capacity` vertices.
pub open spec fn packs_tightly<E>(capacity: nat, pieces: Seq<Seq<E>>) -> bool {
    forall|k: int|
        0 <= k < pieces.len() ==> (concat(pieces.take(k)).len() % capacity) + (
        #[trigger] pieces[k]).len() <= capacity
}

/// The least number of runs of `capacity` vertices that hold `n` vertices.
pub open spec fn runs_needed(n: nat, capacity: nat) -> int {
    (n + capacity - 1) / (capacity as int)
}

/// `concat` with one more piece.
pub proof fn lemma_concat_push<E>(a: Seq<Seq<E>>, piece: Seq<E>)
    ensures
        concat(a.push(piece)) == concat(a) + piece,
{
    assert(a.push(piece).drop_last() =~= a);
}

impl GraphicsView {
    /// Every position that the colour shader has drawn or buffered, in order.
    pub open spec fn colored_positions(self) -> Seq<[u32; 2]> {
        concat(call_positions(self.colored.calls)) + self.colored.pending.positions
    }

    /// Colour fills one after the other, all with `color` under `draw_state`.
    pub open spec fn tri_lists(
        self,
        draw_state: DrawState,
        color: [u32; 4],
        fills: Seq<Seq<Seq<[u32; 2]>>>,
    ) -> GraphicsView
        decreases fills.len(),
    {
        if fills.len() == 0 {
            self
        } else {
            self.tri_lists(draw_state, color, fills.drop_last()).tri_list(
                draw_state,
                color,
                fills.last(),
            )
        }
    }

    /// One piece of a colour fill keeps every position that was drawn or buffered, in order,
    /// and puts its own behind them. It touches nothing but the colour shader, the program in
    /// use and the queue.
    pub proof fn lemma_feed_keeps_order(self, vertices: Seq<[u32; 2]>, color: [u32; 4])
        requires
            self.colored.wf(),
            vertices.len() <= self.colored.capacity,
        ensures
            self.tri_list_feed(vertices, color).colored.wf(),
            self.tri_list_feed(vertices, color).colored.capacity == self.colored.capacity,
            self.tri_list_feed(vertices, color).colored.program == self.colored.program,
            self.tri_list_feed(vertices, color).textured == self.textured,
            self.tri_list_feed(vertices, color).draw_state == self.draw_state,
            self.tri_list_feed(vertices, color).viewport == self.viewport,
            self.tri_list_feed(vertices, color).colored_positions() == self.colored_positions()
                + vertices,
    {
        let h = self.tri_list_feed(vertices, color);
        if self.colored.offset() + vertices.len() > self.colored.capacity {
            lemma_concat_push(call_positions(self.colored.calls), self.colored.pending.positions);
            assert(call_positions(self.colored.calls.push(self.colored.pending)) =~= call_positions(
                self.colored.calls,
            ).push(self.colored.pending.positions));
            assert(h.colored.pending.positions =~= vertices);
            assert(h.colored_positions() =~= self.colored_positions() + vertices);
        } else {
            assert(h.colored_positions() =~= self.colored_positions() + vertices);
        }
    }

    /// The pieces of a colour fill keep every position that was drawn or buffered, in order,
    /// and put their own behind them, in order.
    pub proof fn lemma_feed_all_keeps_order(self, batches: Seq<Seq<[u32; 2]>>, color: [u32; 4])
        requires
            self.colored.wf(),
            forall|i: int| 0 <= i < batches.len() ==> (#[trigger] batches[i]).len() <= self.colored.capacity,
        ensures
            self.tri_list_feed_all(batches, color).colored.wf(),
            self.tri_list_feed_all(batches, color).colored.capacity == self.colored.capacity,
            self.tri_list_feed_all(batches, color).colored.program == self.colored.program,
            self.tri_list_feed_all(batches, color).textured == self.textured,
            self.tri_list_feed_all(batches, color).draw_state == self.draw_state,
            self.tri_list_feed_all(batches, color).viewport == self.viewport,
            self.tri_list_feed_all(batches, color).colored_positions() == self.colored_positions()
                + concat(batches),
        decreases batches.len(),
    {
        if batches.len() == 0 {
            assert(self.colored_positions() + concat(batches) =~= self.colored_positions());
        } else {
            let front = batches.drop_last();
            self.lemma_feed_all_keeps_order(front, color);
            let mid = self.tri_list_feed_all(front, color);
            mid.lemma_feed_keeps_order(batches.last(), color);
            assert(self.colored_positions() + concat(front) + batches.last()
                =~= self.colored_positions() + concat(batches));
        }
    }

    /// Feeding pieces and then more pieces is feeding all of them.
    pub proof fn lemma_feed_all_add(
        self,
        a: Seq<Seq<[u32; 2]>>,
        b: Seq<Seq<[u32; 2]>>,
        color: [u32; 4],
    )
        ensures
            self.tri_list_feed_all(a + b, color) == self.tri_list_feed_all(a, color).tri_list_feed_all(
                b,
                color,
            ),
        decreases b.len(),
    {
        if b.len() == 0 {
            assert(a + b =~= a);
        } else {
            assert((a + b).drop_last() =~= a + b.drop_last());
            assert((a + b).last() == b.last());
            self.lemma_feed_all_add(a, b.drop_last(), color);
        }
    }
}

/// How many vertices are buffered, and how many runs of `capacity` are complete, once `n`
/// vertices were fed into an empty buffer without a piece across a multiple of `capacity`.
proof fn lemma_fill_arithmetic(n: nat, capacity: nat, calls: nat, pending: nat)
    requires
        capacity > 0,
        0 < pending <= capacity,
        n == calls * capacity + pending,
    ensures
        runs_needed(n, capacity) == calls + 1,
        pending == capacity ==> n % capacity == 0,
        pending < capacity ==> n % capacity == pending,
{
    let c = capacity as int;
    assert((calls as int + 1) * c == calls * capacity + c) by (nonlinear_arith)
        requires
            c == capacity,
    ;
    lemma_fundamental_div_mod_converse(n + c - 1, c, calls as int + 1, pending - 1);
    if pending == capacity {
        lemma_fundamental_div_mod_converse(n as int, c, calls as int + 1, 0);
    } else {
        lemma_fundamental_div_mod_converse(n as int, c, calls as int, pending as int);
    }
}

/// If `n` vertices lie in `calls` runs of at most `capacity` each, at least as many runs are
/// there as `n` vertices need.
proof fn lemma_runs_needed_at_most(n: nat, capacity: nat, calls: nat)
    requires
        capacity > 0,
        n <= calls * capacity,
    ensures
        runs_needed(n, capacity) <= calls,
{
    let c = capacity as int;
    lemma_fundamental_div_mod_converse(calls * c + c - 1, c, calls as int, c - 1);
    vstd::arithmetic::div_mod::lemma_div_is_ordered(n + c - 1, calls * c + c - 1, c);
}

impl GraphicsView {
    /// The number of vertices in the draw calls of the colour shader.
    pub open spec fn colored_drawn(self) -> nat {
        concat(call_positions(self.colored.calls)).len()
    }

    /// A draw call more with what is buffered adds what is buffered to the vertices drawn.
    proof fn lemma_flush_draws_pending(self)
        ensures
            self.flush_colored().colored_drawn() == self.colored_drawn() + self.colored.offset(),
    {
        lemma_concat_push(call_positions(self.colored.calls), self.colored.pending.positions);
        assert(call_positions(self.colored.calls.push(self.colored.pending)) =~= call_positions(
            self.colored.calls,
        ).push(self.colored.pending.positions));
    }

    /// Every draw call that the pieces of a colour fill force holds at least one vertex and at
    /// most `capacity`: the vertices drawn grow by at least the number of draw calls made and
    /// by at most `capacity` times that number.
    pub proof fn lemma_feed_all_bounds(self, batches: Seq<Seq<[u32; 2]>>, color: [u32; 4])
        requires
            self.colored.wf(),
            forall|i: int| 0 <= i < batches.len() ==> (#[trigger] batches[i]).len() <= self.colored.capacity,
        ensures
            ({
                let h = self.tri_list_feed_all(batches, color);
                let calls = h.colored.calls.len() - self.colored.calls.len();
                let drawn = h.colored_drawn() - self.colored_drawn();
                &&& h.colored.wf()
                &&& h.colored.capacity == self.colored.capacity
                &&& 0 <= calls <= drawn <= calls * self.colored.capacity
            }),
        decreases batches.len(),
    {
        let cap = self.colored.capacity;
        if batches.len() > 0 {
            let front = batches.drop_last();
            self.lemma_feed_all_bounds(front, color);
            let mid = self.tri_list_feed_all(front, color);
            let h = mid.tri_list_feed(batches.last(), color);
            mid.lemma_feed_keeps_order(batches.last(), color);
            let calls = mid.colored.calls.len() - self.colored.calls.len();
            if mid.colored.offset() + batches.last().len() > cap {
                mid.use_program(mid.colored.program).lemma_flush_draws_pending();
                assert(h.colored_drawn() == mid.colored_drawn() + mid.colored.offset());
                assert((calls + 1) * cap == calls * cap + cap) by (nonlinear_arith);
            } else {
                assert(h.colored.calls == mid.colored.calls);
            }
        } else {
            assert(0 * cap == 0);
        }
    }

    /// Pieces none of which reaches across a multiple of the capacity, fed into an empty
    /// buffer, are drawn in full runs: every draw call that feeding forces holds `capacity`
    /// vertices, and what stays buffered is the rest, never nothing once a vertex was fed.
    pub proof fn lemma_tight_feed(self, batches: Seq<Seq<[u32; 2]>>, color: [u32; 4])
        requires
            self.colored.wf(),
            self.colored.capacity > 0,
            self.colored.offset() == 0,
            packs_tightly(self.colored.capacity, batches),
        ensures
            ({
                let h = self.tri_list_feed_all(batches, color);
                let n = concat(batches).len();
                let added = h.colored.calls.len() - self.colored.calls.len();
                &&& h.colored.wf()
                &&& h.colored.capacity == self.colored.capacity
                &&& added >= 0
                &&& n == added * self.colored.capacity + h.colored.offset()
                &&& n > 0 ==> h.colored.offset() > 0
            }),
        decreases batches.len(),
    {
        let cap = self.colored.capacity;
        if batches.len() == 0 {
        } else {
            let front = batches.drop_last();
            let last = batches.last();
            let k = batches.len() - 1;
            assert(batches.take(k) =~= front);
            assert forall|j: int| 0 <= j < front.len() implies (concat(front.take(j)).len() % cap) + (
            #[trigger] front[j]).len() <= cap by {
                assert(front.take(j) =~= batches.take(j));
                assert(front[j] == batches[j]);
            }
            self.lemma_tight_feed(front, color);
            let mid = self.tri_list_feed_all(front, color);
            let h = self.tri_list_feed_all(batches, color);
            let m = concat(front).len();
            let added = (mid.colored.calls.len() - self.colored.calls.len()) as nat;
            assert(concat(batches).len() == m + last.len());
            assert((m % cap) + batches[k].len() <= cap);
            if m > 0 {
                lemma_fill_arithmetic(m, cap, added, mid.colored.offset());
            } else {
                assert(added * cap + mid.colored.offset() == 0);
                assert(mid.colored.offset() == 0);
                assert(added * cap == 0);
                assert(added == 0) by (nonlinear_arith)
                    requires
                        added * cap == 0,
                        cap > 0,
                ;
            }
            if mid.colored.offset() + last.len() > cap {
                assert(mid.colored.offset() == cap);
                assert(h.colored.offset() == last.len());
                assert((added + 1) * cap == added * cap + cap) by (nonlinear_arith);
            } else {
                assert(h.colored.offset() == mid.colored.offset() + last.len());
            }
        }
    }

    /// A colour fill that finds nothing buffered in either fixed shader leaves the colour
    /// shader as it finds it before it takes vertices, and `draw_state` in force.
    pub proof fn lemma_begin_on_empty(self, draw_state: DrawState)
        requires
            self.colored.offset() == 0,
            self.textured.offset() == 0,
        ensures
            self.tri_list_begin(draw_state).colored == self.colored,
            self.tri_list_begin(draw_state).textured == self.textured,
            self.tri_list_begin(draw_state).draw_state == Some(draw_state),
            self.draw_state == Some(draw_state) ==> self.tri_list_begin(draw_state) == self,
    {
    }

    /// Colour fills with one colour under one draw state, with nothing buffered in the texture
    /// shader, are one colour fill of all their pieces.
    pub proof fn lemma_fills_as_one(
        self,
        draw_state: DrawState,
        color: [u32; 4],
        fills: Seq<Seq<Seq<[u32; 2]>>>,
    )
        requires
            self.colored.wf(),
            self.textured.offset() == 0,
            fills.len() > 0,
            forall|i: int, j: int|
                0 <= i < fills.len() && 0 <= j < fills[i].len() ==> (#[trigger] fills[i][j]).len()
                    <= self.colored.capacity,
        ensures
            self.tri_lists(draw_state, color, fills) == self.tri_list(
                draw_state,
                color,
                concat(fills),
            ),
        decreases fills.len(),
    {
        let front = fills.drop_last();
        let last = fills.last();
        if front.len() == 0 {
            assert(concat(fills) =~= last);
            assert(self.tri_lists(draw_state, color, front) == self);
        } else {
            assert forall|i: int, j: int| 0 <= i < front.len() && 0 <= j < front[i].len() implies (
            #[trigger] front[i][j]).len() <= self.colored.capacity by {
                assert(front[i] == fills[i]);
            }
            self.lemma_fills_as_one(draw_state, color, front);
            let begun = self.tri_list_begin(draw_state);
            let mid = begun.tri_list_feed_all(concat(front), color);
            lemma_pieces_within(fills.drop_last(), self.colored.capacity);
            begun.lemma_feed_all_keeps_order(concat(front), color);
            assert(mid.tri_list_begin(draw_state) == mid);
            begun.lemma_feed_all_add(concat(front), last, color);
        }
    }

    /// A frame of colour fills, all with one colour under one draw state, that starts with
    /// nothing buffered: the positions drawn are those of the pieces in the order of the
    /// calls, and nothing stays buffered. There are at least as many draw calls as runs of
    /// `capacity` vertices are needed, and at most as many as vertices; if no piece reaches
    /// across a multiple of the capacity, there are exactly as many as runs are needed.
    pub proof fn lemma_colour_frame(
        self,
        draw_state: DrawState,
        color: [u32; 4],
        fills: Seq<Seq<Seq<[u32; 2]>>>,
    )
        requires
            self.wf(),
            self.colored.capacity > 0,
            self.colored.offset() == 0,
            self.textured.offset() == 0,
            forall|i: int, j: int|
                0 <= i < fills.len() && 0 <= j < fills[i].len() ==> (#[trigger] fills[i][j]).len()
                    <= self.colored.capacity,
        ensures
            ({
                let h = self.tri_lists(draw_state, color, fills).draw_end();
                let n = concat(concat(fills)).len();
                &&& h.colored.offset() == 0
                &&& concat(call_positions(h.colored.calls)) == concat(
                    call_positions(self.colored.calls),
                ) + concat(concat(fills))
                &&& runs_needed(n, self.colored.capacity) <= h.colored.calls.len()
                    - self.colored.calls.len() <= n
                &&& packs_tightly(self.colored.capacity, concat(fills)) ==> h.colored.calls.len()
                    == self.colored.calls.len() + runs_needed(n, self.colored.capacity)
                &&& h.textured.calls == self.textured.calls
            }),
    {
        let cap = self.colored.capacity;
        let all = concat(fills);
        let n = concat(all).len();
        lemma_pieces_within(fills, cap);
        let fed = if fills.len() == 0 {
            self
        } else {
            self.tri_list(draw_state, color, all)
        };
        let begun = if fills.len() == 0 {
            self
        } else {
            self.tri_list_begin(draw_state)
        };
        if fills.len() == 0 {
            assert(all =~= Seq::<Seq<[u32; 2]>>::empty());
            assert(concat(all) =~= Seq::<[u32; 2]>::empty());
        } else {
            self.lemma_fills_as_one(draw_state, color, fills);
            self.lemma_begin_on_empty(draw_state);
        }
        assert(self.tri_lists(draw_state, color, fills) == begun.tri_list_feed_all(all, color));
        begun.lemma_feed_all_keeps_order(all, color);
        let h = fed.draw_end();
        assert(fed == begun.tri_list_feed_all(all, color));
        assert(begun.colored_positions() =~= concat(call_positions(self.colored.calls)));
        if fed.colored.offset() > 0 {
            lemma_concat_push(call_positions(fed.colored.calls), fed.colored.pending.positions);
            assert(call_positions(fed.colored.calls.push(fed.colored.pending)) =~= call_positions(
                fed.colored.calls,
            ).push(fed.colored.pending.positions));
        } else {
            assert(fed.colored.pending.positions =~= Seq::<[u32; 2]>::empty());
            assert(fed.colored_positions() =~= concat(call_positions(fed.colored.calls)));
        }
        begun.lemma_feed_all_bounds(all, color);
        if fed.colored.offset() > 0 {
            fed.use_program(fed.colored.program).lemma_flush_draws_pending();
        }
        let made = (h.colored.calls.len() - self.colored.calls.len()) as nat;
        assert(h.colored_drawn() == self.colored_drawn() + n);
        assert(made <= n <= made * cap) by {
            let before = (fed.colored.calls.len() - self.colored.calls.len()) as nat;
            if fed.colored.offset() > 0 {
                assert((before + 1) * cap == before * cap + cap) by (nonlinear_arith);
            }
        }
        lemma_runs_needed_at_most(n, cap, made);
        if packs_tightly(cap, all) {
            begun.lemma_tight_feed(all, color);
            let added = (fed.colored.calls.len() - self.colored.calls.len()) as nat;
            if n > 0 {
                lemma_fill_arithmetic(n, cap, added, fed.colored.offset());
            } else {
                assert(added * cap == 0);
                assert(added == 0) by (nonlinear_arith)
                    requires
                        added * cap == 0,
                        cap > 0,
                ;
                vstd::arithmetic::div_mod::lemma_basic_div(cap - 1, cap as int);
            }
        }
    }
}

impl GraphicsView {
    /// Pieces of a textured fill that fit behind what is buffered are buffered without a draw
    /// call. Nothing but the texture shader changes.
    pub proof fn lemma_uv_feed_all_fits(self, batches: Seq<(Seq<[u32; 2]>, Seq<[u32; 2]>)>)
        requires
            self.textured.offset() + concat(piece_positions(batches)).len()
                <= self.textured.capacity,
        ensures
            self.tri_list_uv_feed_all(batches) == (GraphicsView {
                textured: self.textured.append(
                    concat(piece_positions(batches)),
                    concat(piece_uvs(batches)),
                ),
                ..self
            }),
        decreases batches.len(),
    {
        let t = self.textured;
        if batches.len() == 0 {
            assert(concat(piece_positions(batches)) =~= Seq::<[u32; 2]>::empty());
            assert(concat(piece_uvs(batches)) =~= Seq::<[u32; 2]>::empty());
            assert(t.pending.positions + Seq::<[u32; 2]>::empty() =~= t.pending.positions);
            assert(t.pending.uvs + Seq::<[u32; 2]>::empty() =~= t.pending.uvs);
        } else {
            let front = batches.drop_last();
            let last = batches.last();
            assert(piece_positions(batches).drop_last() =~= piece_positions(front));
            assert(piece_uvs(batches).drop_last() =~= piece_uvs(front));
            assert(piece_positions(batches).last() == last.0);
            assert(piece_uvs(batches).last() == last.1);
            self.lemma_uv_feed_all_fits(front);
            let p = concat(piece_positions(front));
            let u = concat(piece_uvs(front));
            assert((t.pending.positions + p) + last.0 =~= t.pending.positions + (p + last.0));
            assert((t.pending.uvs + u) + last.1 =~= t.pending.uvs + (u + last.1));
        }
    }

    /// A textured fill under another draw state, or with another texture or colour, than the
    /// one in force draws what the texture shader has buffered in exactly one draw call, as it
    /// was bound, even though the new vertices would fit behind it. The new vertices are
    /// buffered under the new texture and colour.
    pub proof fn lemma_switch_draws_once(
        self,
        draw_state: DrawState,
        color: [u32; 4],
        texture_id: u32,
        batches: Seq<(Seq<[u32; 2]>, Seq<[u32; 2]>)>,
    )
        requires
            self.textured.offset() > 0,
            self.state_differs(draw_state) || self.textured.pending.texture_id != texture_id
                || self.textured.pending.color != color,
            concat(piece_positions(batches)).len() <= self.textured.capacity,
        ensures
            self.tri_list_uv(draw_state, color, texture_id, batches).textured == (TexturedView {
                pending: TexturedBatch {
                    texture_id,
                    color,
                    positions: concat(piece_positions(batches)),
                    uvs: concat(piece_uvs(batches)),
                },
                calls: self.textured.calls.push(self.textured.pending),
                ..self.textured
            }),
            self.tri_list_uv(draw_state, color, texture_id, batches).draw_state == Some(draw_state),
    {
        let begun = self.tri_list_uv_begin(draw_state, color, texture_id);
        assert(begun.textured.pending.positions =~= Seq::<[u32; 2]>::empty());
        begun.lemma_uv_feed_all_fits(batches);
        let h = begun.tri_list_uv_feed_all(batches);
        assert(h.textured.pending.positions =~= concat(piece_positions(batches)));
        assert(h.textured.pending.uvs =~= concat(piece_uvs(batches)));
    }

    /// A textured fill under the draw state and with the texture and colour in force, whose
    /// vertices fit behind what is buffered, makes no draw call.
    pub proof fn lemma_same_binding_draws_nothing(
        self,
        draw_state: DrawState,
        color: [u32; 4],
        texture_id: u32,
        batches: Seq<(Seq<[u32; 2]>, Seq<[u32; 2]>)>,
    )
        requires
            !self.state_differs(draw_state),
            self.textured.pending.texture_id == texture_id,
            self.textured.pending.color == color,
            self.textured.offset() + concat(piece_positions(batches)).len()
                <= self.textured.capacity,
        ensures
            self.tri_list_uv(draw_state, color, texture_id, batches).textured
                == self.textured.append(
                concat(piece_positions(batches)),
                concat(piece_uvs(batches)),
            ),
    {
        let begun = self.tri_list_uv_begin(draw_state, color, texture_id);
        assert(begun.textured == self.textured);
        begun.lemma_uv_feed_all_fits(batches);
    }

    /// A frame in which nothing is drawn, begun with nothing buffered, makes no draw call: all
    /// that is queued is the setting of the viewport.
    pub proof fn lemma_empty_frame(self, viewport: crate::draw_state::Viewport)
        requires
            self.colored.offset() == 0,
            self.textured.offset() == 0,
        ensures
            self.draw_begin(viewport).draw_end().colored == self.colored,
            self.draw_begin(viewport).draw_end().textured == self.textured,
            self.draw_begin(viewport).draw_end().commands == self.commands.push(
                crate::back_end::GpuCommand::Viewport {
                    x: viewport.rect[0],
                    y: viewport.rect[1],
                    w: viewport.rect[2],
                    h: viewport.rect[3],
                },
            ),
    {
    }
}

/// If every piece of every fill is within `capacity`, so is every piece of all fills.
pub proof fn lemma_pieces_within<E>(fills: Seq<Seq<Seq<E>>>, capacity: nat)
    requires
        forall|i: int, j: int|
            0 <= i < fills.len() && 0 <= j < fills[i].len() ==> (#[trigger] fills[i][j]).len()
                <= capacity,
    ensures
        forall|k: int| 0 <= k < concat(fills).len() ==> (#[trigger] concat(fills)[k]).len() <= capacity,
    decreases fills.len(),
{
    if fills.len() > 0 {
        let front = fills.drop_last();
        assert forall|i: int, j: int| 0 <= i < front.len() && 0 <= j < front[i].len() implies (
        #[trigger] front[i][j]).len() <= capacity by {
            assert(front[i] == fills[i]);
        }
        lemma_pieces_within(front, capacity);
        assert forall|k: int| 0 <= k < concat(fills).len() implies (#[trigger] concat(
            fills,
        )[k]).len() <= capacity by {
            if k < concat(front).len() {
                assert(concat(fills)[k] == concat(front)[k]);
            } else {
                assert(concat(fills)[k] == fills.last()[k - concat(front).len()]);
            }
        }
    }
}

} // verus!
