//! RGBA frames: packing strided camera buffers, nearest-neighbour scaling,
//! horizontal mirroring and the synthetic frame of the smoke test.

use vstd::prelude::*;


verus! {

/// An RGBA image, four bytes per pixel, rows stored one after the other.
#[derive(Clone, Debug)]
pub struct OwnedFrame {
    pub width: usize,
    pub height: usize,
    pub data: Vec<u8>,
}

/// Bytes in one packed row, as `width.saturating_mul(4)` computes them.
pub open spec fn row_bytes(width: int) -> int {
    if width * 4 <= usize::MAX {
        width * 4
    } else {
        usize::MAX as int
    }
}

/// The frame is refused: the buffer size overflows, the buffer is too short,
/// or the width is zero.
pub open spec fn strided_rgba_rejected(width: int, height: int, stride: int, source_len: int) -> bool {
    stride * height > usize::MAX || source_len < stride * height || row_bytes(width) == 0
}

/// The message (before translation) with which a refused buffer is
/// reported: the size computation overflowed, or the data does not cover
/// the frame.
pub open spec fn frame_error_message(stride: int, height: int) -> Seq<char> {
    if stride * height > usize::MAX {
        "Frame invalido: overflow ao calcular o tamanho do buffer."@
    } else {
        "Frame invalido: dados insuficientes para a resolucao atual."@
    }
}

/// Packing every row reads inside the buffer and allocates a representable
/// vector.
pub open spec fn strided_rgba_packable(width: int, height: int, stride: int, source_len: int) -> bool {
    strided_rgba_rejected(width, height, stride, source_len) || stride == row_bytes(width) || height
        == 0 || ((height - 1) * stride + row_bytes(width) <= source_len && row_bytes(width) * height
        <= isize::MAX)
}

/// Byte `k` of the packed frame: the source byte at the same row and column,
/// with the alpha byte forced to 255.
pub open spec fn strided_byte(source: Seq<u8>, width: int, stride: int, k: int) -> u8 {
    if k % 4 == 3 {
        255
    } else {
        source[(k / (width * 4)) * stride + k % (width * 4)]
    }
}

/// Splitting an index into a row and a byte within a row of four-byte pixels.
pub proof fn lemma_row_split(k: int, w: int, q: int, r: int)
    requires
        w > 0,
        q >= 0,
        0 <= r < w * 4,
        k == q * (w * 4) + r,
    ensures
        k / (w * 4) == q,
        k % (w * 4) == r,
        k % 4 == r % 4,
{
    vstd::arithmetic::div_mod::lemma_fundamental_div_mod_converse(k, w * 4, q, r);
    assert(k == (q * w + r / 4) * 4 + r % 4) by (nonlinear_arith)
        requires
            k == q * (w * 4) + r,
            r == (r / 4) * 4 + r % 4,
    ;
    assert(0 <= r % 4 < 4);
    vstd::arithmetic::div_mod::lemma_fundamental_div_mod_converse(k, 4, q * w + r / 4, r % 4);
}

impl OwnedFrame {
    /// Whether the data holds exactly `width * height` pixels.
    pub open spec fn wf(&self) -> bool {
        self.data@.len() == self.width * self.height * 4
    }

    /// Packs a camera buffer whose rows are `stride` bytes apart into a frame
    /// of `width * height` pixels, forcing every alpha byte to 255. A refused
    /// buffer gives the message of `frame_error_message`, for the caller to
    /// translate.
    pub fn from_strided_rgba(width: usize, height: usize, stride: usize, source: &[u8]) -> (r: Result<
        Self,
        String,
    >)
        requires
            source@.len() <= isize::MAX,
            strided_rgba_packable(width as int, height as int, stride as int, source@.len() as int),
        ensures
            r is Err <==> strided_rgba_rejected(
                width as int,
                height as int,
                stride as int,
                source@.len() as int,
            ),
            r matches Err(e) ==> e@ == frame_error_message(stride as int, height as int),
            r matches Ok(f) ==> {
                &&& f.width == width
                &&& f.height == height
                &&& f.wf()
                &&& forall|k: int|
                    0 <= k < f.data@.len() ==> f.data@[k] == strided_byte(
                        source@,
                        width as int,
                        stride as int,
                        k,
                    )
            },
    {
        let rb: usize = if width <= usize::MAX / 4 {
            width * 4
        } else {
            usize::MAX
        };
        let required = match stride.checked_mul(height) {
            Some(v) => v,
            None => {
                proof {
                    reveal_strlit("Frame invalido: overflow ao calcular o tamanho do buffer.");
                }
                return Err(String::from_str("Frame invalido: overflow ao calcular o tamanho do buffer."));
            },
        };
        if source.len() < required || rb == 0 {
            proof {
                reveal_strlit("Frame invalido: dados insuficientes para a resolucao atual.");
            }
            return Err(String::from_str("Frame invalido: dados insuficientes para a resolucao atual."));
        }
        proof {
            if height > 0 && rb == usize::MAX {
                if stride == rb {
                    assert(stride * height >= stride) by (nonlinear_arith)
                        requires
                            height > 0,
                            stride >= 0,
                    ;
                }
            }
        }
        let mut data: Vec<u8> = Vec::new();
        let mut row: usize = 0;
        while row < height
            invariant
                source@.len() <= isize::MAX,
                width > 0,
                height > 0 ==> rb == width * 4,
                rb == row_bytes(width as int),
                required == stride * height,
                required <= source@.len(),
                strided_rgba_packable(width as int, height as int, stride as int, source@.len() as int),
                row <= height,
                data@.len() == row * rb,
                forall|k: int|
                    0 <= k < data@.len() ==> data@[k] == strided_byte(
                        source@,
                        width as int,
                        stride as int,
                        k,
                    ),
            decreases height - row,
        {
            proof {
                assert(row * stride <= (height - 1) * stride) by (nonlinear_arith)
                    requires
                        row <= height - 1,
                        stride >= 0,
                ;
                if stride == rb {
                    assert((row + 1) * stride <= height * stride) by (nonlinear_arith)
                        requires
                            row + 1 <= height,
                            stride >= 0,
                    ;
                    assert((row + 1) * stride == row * stride + stride) by (nonlinear_arith);
                    assert(row * stride <= source@.len());
                } else {
                    assert((height - 1) * stride + row_bytes(width as int) <= source@.len());
                    assert(row * stride <= source@.len());
                }
            }
            let start = row * stride;
            let mut b: usize = 0;
            while b < rb
                invariant
                    source@.len() <= isize::MAX,
                    width > 0,
                    rb == width * 4,
                    row < height,
                    start == row * stride,
                    stride == rb ==> (row + 1) * stride <= source@.len(),
                    stride != rb ==> start + rb <= source@.len(),
                    b <= rb,
                    data@.len() == row * rb + b,
                    forall|k: int|
                        0 <= k < data@.len() ==> data@[k] == strided_byte(
                            source@,
                            width as int,
                            stride as int,
                            k,
                        ),
                decreases rb - b,
            {
                proof {
                    lemma_row_split(row * rb + b, width as int, row as int, b as int);
                    if stride == rb {
                        assert((row + 1) * stride == row * stride + stride) by (nonlinear_arith);
                    }
                    assert(start + b < source@.len());
                }
                let byte: u8 = if b % 4 == 3 {
                    255
                } else {
                    source[start + b]
                };
                data.push(byte);
                b = b + 1;
            }
            row = row + 1;
            proof {
                assert(row * rb == (row - 1) * rb + rb) by (nonlinear_arith);
            }
        }
        proof {
            if height > 0 {
                assert(row * rb == width * height * 4) by (nonlinear_arith)
                    requires
                        row == height,
                        rb == width * 4,
                ;
            }
        }
        Ok(OwnedFrame { width, height, data })
    }

    /// Packs a camera buffer of `source_width * source_height` pixels into a
    /// frame of `target_width * target_height` pixels, picking for each target
    /// pixel the source pixel at the proportional position (nearest neighbour)
    /// and forcing the alpha byte to 255. Equal sizes pack without scaling.
    /// A refused buffer gives the message of `frame_error_message`, for the
    /// caller to translate.
    pub fn from_strided_rgba_scaled(
        source_width: usize,
        source_height: usize,
        stride: usize,
        source: &[u8],
        target_width: usize,
        target_height: usize,
    ) -> (r: Result<Self, String>)
        requires
            source@.len() <= isize::MAX,
            target_width == source_width && target_height == source_height ==> strided_rgba_packable(
                source_width as int,
                source_height as int,
                stride as int,
                source@.len() as int,
            ),
            !(target_width == source_width && target_height == source_height) ==> scaled_readable(
                source_width as int,
                source_height as int,
                stride as int,
                source@.len() as int,
                target_width as int,
                target_height as int,
            ),
        ensures
            r matches Err(e) ==> e@ == frame_error_message(stride as int, source_height as int),
            target_width == source_width && target_height == source_height ==> {
                &&& (r is Err <==> strided_rgba_rejected(
                    source_width as int,
                    source_height as int,
                    stride as int,
                    source@.len() as int,
                ))
                &&& r matches Ok(f) ==> {
                    &&& f.width == source_width
                    &&& f.height == source_height
                    &&& f.wf()
                    &&& forall|k: int|
                        0 <= k < f.data@.len() ==> f.data@[k] == strided_byte(
                            source@,
                            source_width as int,
                            stride as int,
                            k,
                        )
                }
            },
            !(target_width == source_width && target_height == source_height) ==> {
                &&& (r is Err <==> scaled_rejected(
                    source_width as int,
                    source_height as int,
                    stride as int,
                    source@.len() as int,
                    target_width as int,
                    target_height as int,
                ))
                &&& r matches Ok(f) ==> {
                    &&& f.width == target_width
                    &&& f.height == target_height
                    &&& f.wf()
                    &&& forall|k: int|
                        0 <= k < f.data@.len() ==> f.data@[k] == scaled_byte(
                            source@,
                            source_width as int,
                            source_height as int,
                            stride as int,
                            target_width as int,
                            target_height as int,
                            k,
                        )
                }
            },
    {
        if target_width == source_width && target_height == source_height {
            return Self::from_strided_rgba(source_width, source_height, stride, source);
        }
        let rb: usize = if source_width <= usize::MAX / 4 {
            source_width * 4
        } else {
            usize::MAX
        };
        let required = match stride.checked_mul(source_height) {
            Some(v) => v,
            None => {
                proof {
                    reveal_strlit("Frame invalido: overflow ao calcular o tamanho do buffer.");
                }
                return Err(String::from_str("Frame invalido: overflow ao calcular o tamanho do buffer."));
            },
        };
        if source.len() < required || rb == 0 || target_width == 0 || target_height == 0 {
            proof {
                reveal_strlit("Frame invalido: dados insuficientes para a resolucao atual.");
            }
            return Err(String::from_str("Frame invalido: dados insuficientes para a resolucao atual."));
        }
        let ghost sw = source_width as int;
        let ghost sh = source_height as int;
        let ghost tw = target_width as int;
        let ghost th = target_height as int;
        let ghost max_y = ((th - 1) * sh / th);
        let ghost max_x = ((tw - 1) * sw / tw);
        let mut data: Vec<u8> = Vec::new();
        let mut target_y: usize = 0;
        while target_y < target_height
            invariant
                source@.len() <= isize::MAX,
                tw > 0,
                th > 0,
                sw == source_width,
                sh == source_height,
                tw == target_width,
                th == target_height,
                max_y == ((th - 1) * sh / th),
                max_x == ((tw - 1) * sw / tw),
                scaled_bounds(sw, sh, stride as int, source@.len() as int, tw, th),
                target_y <= target_height,
                data@.len() == target_y * (tw * 4),
                forall|k: int|
                    0 <= k < data@.len() ==> data@[k] == scaled_byte(
                        source@,
                        sw,
                        sh,
                        stride as int,
                        tw,
                        th,
                        k,
                    ),
            decreases target_height - target_y,
        {
            proof {
                assert(target_y * sh <= (th - 1) * sh) by (nonlinear_arith)
                    requires
                        target_y <= th - 1,
                        sh >= 0,
                ;
                vstd::arithmetic::div_mod::lemma_div_is_ordered(target_y * sh, (th - 1) * sh, th);
                assert(0 <= target_y * sh / th) by {
                    vstd::arithmetic::div_mod::lemma_div_pos_is_pos(target_y * sh, th);
                }
                assert((target_y * sh / th) * stride <= max_y * stride) by (nonlinear_arith)
                    requires
                        target_y * sh / th <= max_y,
                        stride >= 0,
                ;
            }
            let source_y = target_y * source_height / target_height;
            let source_row_start = source_y * stride;
            let mut target_x: usize = 0;
            while target_x < target_width
                invariant
                    source@.len() <= isize::MAX,
                    tw > 0,
                    th > 0,
                    sw == source_width,
                    sh == source_height,
                    tw == target_width,
                    th == target_height,
                    max_y == ((th - 1) * sh / th),
                    max_x == ((tw - 1) * sw / tw),
                    scaled_bounds(sw, sh, stride as int, source@.len() as int, tw, th),
                    target_y < target_height,
                    source_y == target_y * sh / th,
                    source_row_start == source_y * stride,
                    source_row_start <= max_y * stride,
                    target_x <= target_width,
                    data@.len() == target_y * (tw * 4) + target_x * 4,
                    forall|k: int|
                        0 <= k < data@.len() ==> data@[k] == scaled_byte(
                            source@,
                            sw,
                            sh,
                            stride as int,
                            tw,
                            th,
                            k,
                        ),
                decreases target_width - target_x,
            {
                proof {
                    assert(target_x * sw <= (tw - 1) * sw) by (nonlinear_arith)
                        requires
                            target_x <= tw - 1,
                            sw >= 0,
                    ;
                    vstd::arithmetic::div_mod::lemma_div_is_ordered(target_x * sw, (tw - 1) * sw, tw);
                    vstd::arithmetic::div_mod::lemma_div_pos_is_pos(target_x * sw, tw);
                    assert(source_row_start + (target_x * sw / tw) * 4 + 3 <= source@.len());
                }
                let source_x = target_x * source_width / target_width;
                let source_index = source_row_start + source_x * 4;
                let mut c: usize = 0;
                while c < 4
                    invariant
                        source@.len() <= isize::MAX,
                        tw > 0,
                        th > 0,
                        sw == source_width,
                        sh == source_height,
                        tw == target_width,
                        th == target_height,
                        target_y < target_height,
                        target_x < target_width,
                        source_y == target_y * sh / th,
                        source_x == target_x * sw / tw,
                        source_index == source_y * stride + source_x * 4,
                        source_index + 3 <= source@.len(),
                        c <= 4,
                        data@.len() == target_y * (tw * 4) + target_x * 4 + c,
                        forall|k: int|
                            0 <= k < data@.len() ==> data@[k] == scaled_byte(
                                source@,
                                sw,
                                sh,
                                stride as int,
                                tw,
                                th,
                                k,
                            ),
                    decreases 4 - c,
                {
                    proof {
                        let k = target_y * (tw * 4) + target_x * 4 + c;
                        lemma_row_split(k, tw, target_y as int, target_x * 4 + c);
                        vstd::arithmetic::div_mod::lemma_fundamental_div_mod_converse(
                            target_x * 4 + c,
                            4,
                            target_x as int,
                            c as int,
                        );
                    }
                    let byte: u8 = if c == 3 {
                        255
                    } else {
                        source[source_index + c]
                    };
                    data.push(byte);
                    c = c + 1;
                }
                target_x = target_x + 1;
            }
            target_y = target_y + 1;
            proof {
                assert(target_y * (tw * 4) == (target_y - 1) * (tw * 4) + tw * 4) by (nonlinear_arith);
            }
        }
        proof {
            assert(target_y * (tw * 4) == tw * th * 4) by (nonlinear_arith)
                requires
                    target_y == th,
            ;
        }
        Ok(OwnedFrame { width: target_width, height: target_height, data })
    }

    /// Resizes the frame by nearest neighbour: each target pixel copies the
    /// four bytes of the source pixel at the proportional position. Equal
    /// sizes give a copy of the frame.
    pub fn scaled_nearest(&self, target_width: usize, target_height: usize) -> (r: Self)
        requires
            !(target_width == self.width && target_height == self.height) ==> nearest_readable(
                self.width as int,
                self.height as int,
                self.data@.len() as int,
                target_width as int,
                target_height as int,
            ),
        ensures
            target_width == self.width && target_height == self.height ==> {
                &&& r.width == self.width
                &&& r.height == self.height
                &&& r.data@ == self.data@
            },
            !(target_width == self.width && target_height == self.height) ==> {
                &&& r.width == target_width
                &&& r.height == target_height
                &&& r.wf()
                &&& forall|k: int|
                    0 <= k < r.data@.len() ==> r.data@[k] == self.data@[nearest_index(
                        self.width as int,
                        self.height as int,
                        target_width as int,
                        target_height as int,
                        k,
                    )]
            },
    {
        if target_width == self.width && target_height == self.height {
            return OwnedFrame { width: self.width, height: self.height, data: copy_bytes(&self.data) };
        }
        let ghost w = self.width as int;
        let ghost h = self.height as int;
        let ghost tw = target_width as int;
        let ghost th = target_height as int;
        let mut data: Vec<u8> = Vec::new();
        if target_width == 0 || target_height == 0 {
            proof {
                assert(tw * th * 4 == 0) by (nonlinear_arith)
                    requires
                        tw == 0 || th == 0,
                ;
            }
            return OwnedFrame { width: target_width, height: target_height, data };
        }
        let ghost max_y = ((th - 1) * h / th);
        let ghost max_x = ((tw - 1) * w / tw);
        let data_len = self.data.len();
        let mut target_y: usize = 0;
        while target_y < target_height
            invariant
                tw > 0,
                th > 0,
                w == self.width,
                h == self.height,
                tw == target_width,
                th == target_height,
                max_y == ((th - 1) * h / th),
                max_x == ((tw - 1) * w / tw),
                nearest_bounds(w, h, self.data@.len() as int, tw, th),
                self.data@.len() <= usize::MAX,
                target_y <= target_height,
                data@.len() == target_y * (tw * 4),
                forall|k: int|
                    0 <= k < data@.len() ==> data@[k] == self.data@[nearest_index(w, h, tw, th, k)],
            decreases target_height - target_y,
        {
            proof {
                assert(target_y * h <= (th - 1) * h) by (nonlinear_arith)
                    requires
                        target_y <= th - 1,
                        h >= 0,
                ;
                vstd::arithmetic::div_mod::lemma_div_is_ordered(target_y * h, (th - 1) * h, th);
                vstd::arithmetic::div_mod::lemma_div_pos_is_pos(target_y * h, th);
                assert((target_y * h / th) * w <= max_y * w) by (nonlinear_arith)
                    requires
                        target_y * h / th <= max_y,
                        w >= 0,
                ;
                assert(0 <= max_x) by {
                    vstd::arithmetic::div_mod::lemma_div_pos_is_pos((tw - 1) * w, tw);
                }
                assert((target_y * h / th) * w * 4 <= self.data@.len());
            }
            let source_y = target_y * self.height / target_height;
            let source_row_start = source_y * self.width * 4;
            let mut target_x: usize = 0;
            while target_x < target_width
                invariant
                    tw > 0,
                    th > 0,
                    w == self.width,
                    h == self.height,
                    tw == target_width,
                    th == target_height,
                    max_y == ((th - 1) * h / th),
                    max_x == ((tw - 1) * w / tw),
                    nearest_bounds(w, h, self.data@.len() as int, tw, th),
                self.data@.len() <= usize::MAX,
                    target_y < target_height,
                    source_y == target_y * h / th,
                    source_row_start == source_y * w * 4,
                    source_y * w <= max_y * w,
                    target_x <= target_width,
                    data@.len() == target_y * (tw * 4) + target_x * 4,
                    forall|k: int|
                        0 <= k < data@.len() ==> data@[k] == self.data@[nearest_index(
                            w,
                            h,
                            tw,
                            th,
                            k,
                        )],
                decreases target_width - target_x,
            {
                proof {
                    assert(target_x * w <= (tw - 1) * w) by (nonlinear_arith)
                        requires
                            target_x <= tw - 1,
                            w >= 0,
                    ;
                    vstd::arithmetic::div_mod::lemma_div_is_ordered(target_x * w, (tw - 1) * w, tw);
                    vstd::arithmetic::div_mod::lemma_div_pos_is_pos(target_x * w, tw);
                    assert((source_y * w + target_x * w / tw) * 4 + 4 <= self.data@.len());
                }
                let source_x = target_x * self.width / target_width;
                let source_index = source_row_start + source_x * 4;
                let mut c: usize = 0;
                while c < 4
                    invariant
                        tw > 0,
                        th > 0,
                        w == self.width,
                        h == self.height,
                        tw == target_width,
                        th == target_height,
                        target_y < target_height,
                        target_x < target_width,
                        source_y == target_y * h / th,
                        source_x == target_x * w / tw,
                        source_index == (source_y * w + source_x) * 4,
                        source_index + 4 <= self.data@.len(),
                        c <= 4,
                        data@.len() == target_y * (tw * 4) + target_x * 4 + c,
                        forall|k: int|
                            0 <= k < data@.len() ==> data@[k] == self.data@[nearest_index(
                                w,
                                h,
                                tw,
                                th,
                                k,
                            )],
                    decreases 4 - c,
                {
                    proof {
                        let k = target_y * (tw * 4) + target_x * 4 + c;
                        lemma_row_split(k, tw, target_y as int, target_x * 4 + c);
                        vstd::arithmetic::div_mod::lemma_fundamental_div_mod_converse(
                            target_x * 4 + c,
                            4,
                            target_x as int,
                            c as int,
                        );
                    }
                    data.push(self.data[source_index + c]);
                    c = c + 1;
                }
                target_x = target_x + 1;
            }
            target_y = target_y + 1;
            proof {
                assert(target_y * (tw * 4) == (target_y - 1) * (tw * 4) + tw * 4) by (nonlinear_arith);
            }
        }
        proof {
            assert(target_y * (tw * 4) == tw * th * 4) by (nonlinear_arith)
                requires
                    target_y == th,
            ;
        }
        OwnedFrame { width: target_width, height: target_height, data }
    }
}

/// A copy of a byte vector.
fn copy_bytes(v: &Vec<u8>) -> (r: Vec<u8>)
    ensures
        r@ == v@,
{
    let mut r: Vec<u8> = Vec::new();
    let mut i: usize = 0;
    while i < v.len()
        invariant
            i <= v.len(),
            r@ == v@.take(i as int),
        decreases v.len() - i,
    {
        r.push(v[i]);
        i = i + 1;
        assert(r@ =~= v@.take(i as int));
    }
    assert(v@.take(i as int) =~= v@);
    r
}

/// Scaled packing is refused: the source buffer size overflows, the buffer is
/// too short, or one of the widths or heights is zero.
pub open spec fn scaled_rejected(
    source_width: int,
    source_height: int,
    stride: int,
    source_len: int,
    target_width: int,
    target_height: int,
) -> bool {
    strided_rgba_rejected(source_width, source_height, stride, source_len) || target_width == 0
        || target_height == 0
}

/// Scaled packing reads inside the buffer, and none of its products overflows.
pub open spec fn scaled_readable(
    source_width: int,
    source_height: int,
    stride: int,
    source_len: int,
    target_width: int,
    target_height: int,
) -> bool {
    scaled_rejected(source_width, source_height, stride, source_len, target_width, target_height)
        || scaled_bounds(source_width, source_height, stride, source_len, target_width, target_height)
}

/// The bounds behind `scaled_readable`: the target allocation, the products
/// of target coordinates and source sizes, and the last byte read.
pub open spec fn scaled_bounds(
    source_width: int,
    source_height: int,
    stride: int,
    source_len: int,
    target_width: int,
    target_height: int,
) -> bool {
    &&& target_width * target_height * 4 <= isize::MAX
    &&& (target_height - 1) * source_height <= usize::MAX
    &&& (target_width - 1) * source_width <= usize::MAX
    &&& ((target_height - 1) * source_height / target_height) * stride + ((target_width - 1)
        * source_width / target_width) * 4 + 3 <= source_len
}

/// Byte `k` of a scaled frame: the byte at the same channel of the source
/// pixel at the proportional position, with the alpha byte forced to 255.
pub open spec fn scaled_byte(
    source: Seq<u8>,
    source_width: int,
    source_height: int,
    stride: int,
    target_width: int,
    target_height: int,
    k: int,
) -> u8 {
    let target_y = k / (target_width * 4);
    let target_x = (k % (target_width * 4)) / 4;
    let c = k % 4;
    if c == 3 {
        255
    } else {
        source[(target_y * source_height / target_height) * stride + (target_x * source_width
            / target_width) * 4 + c]
    }
}

/// Nearest-neighbour scaling reads inside the frame, and none of its products
/// overflows.
pub open spec fn nearest_readable(
    width: int,
    height: int,
    data_len: int,
    target_width: int,
    target_height: int,
) -> bool {
    target_width * target_height * 4 <= isize::MAX && (target_width > 0 && target_height > 0
        ==> nearest_bounds(width, height, data_len, target_width, target_height))
}

/// The bounds behind `nearest_readable` for a nonempty target: the products
/// of target coordinates and source sizes, and the last byte read.
pub open spec fn nearest_bounds(
    width: int,
    height: int,
    data_len: int,
    target_width: int,
    target_height: int,
) -> bool {
    &&& target_width * target_height * 4 <= isize::MAX
    &&& (target_height - 1) * height <= usize::MAX
    &&& (target_width - 1) * width <= usize::MAX
    &&& (((target_height - 1) * height / target_height) * width + (target_width - 1) * width
        / target_width) * 4 + 4 <= data_len
}

/// The source byte that byte `k` of a nearest-neighbour scaled frame copies.
pub open spec fn nearest_index(width: int, height: int, target_width: int, target_height: int, k: int) -> int {
    let target_y = k / (target_width * 4);
    let target_x = (k % (target_width * 4)) / 4;
    ((target_y * height / target_height) * width + target_x * width / target_width) * 4 + k % 4
}


/// Byte `k` of a frame mirrored left to right: within each complete row,
/// pixel `x` takes the bytes of pixel `width - 1 - x`; frames narrower than
/// two pixels, and bytes after the last complete row, stay as they are.
pub open spec fn mirrored_byte(data: Seq<u8>, width: int, k: int) -> u8 {
    let rs = width * 4;
    if width < 2 || k >= (data.len() as int / rs) * rs {
        data[k]
    } else {
        data[(k / rs) * rs + (width - 1 - (k % rs) / 4) * 4 + k % 4]
    }
}

/// The bytes of a frame mirrored left to right.
pub open spec fn mirrored(data: Seq<u8>, width: int) -> Seq<u8> {
    Seq::new(data.len(), |k: int| mirrored_byte(data, width, k))
}

/// Index `k` below the last complete row names a row, a pixel and a channel.
proof fn lemma_pixel_split(k: int, width: int, full_rows: int)
    requires
        width > 0,
        0 <= k < full_rows * (width * 4),
    ensures
        0 <= k / (width * 4) < full_rows,
        0 <= (k % (width * 4)) / 4 < width,
        0 <= k % 4 < 4,
        k == (k / (width * 4)) * (width * 4) + ((k % (width * 4)) / 4) * 4 + k % 4,
        k % (width * 4) == ((k % (width * 4)) / 4) * 4 + k % 4,
{
    let rs = width * 4;
    let row = k / rs;
    let r = k % rs;
    vstd::arithmetic::div_mod::lemma_fundamental_div_mod(k, rs);
    vstd::arithmetic::div_mod::lemma_mod_bound(k, rs);
    vstd::arithmetic::div_mod::lemma_div_pos_is_pos(k, rs);
    assert(row < full_rows) by {
        vstd::arithmetic::div_mod::lemma_div_is_ordered(k, full_rows * rs - 1, rs);
        assert(full_rows * rs - 1 == (full_rows - 1) * rs + (rs - 1)) by (nonlinear_arith);
        vstd::arithmetic::div_mod::lemma_fundamental_div_mod_converse(full_rows * rs - 1, rs, full_rows - 1, rs - 1);
    }
    lemma_row_split(k, width, row, r);
    assert(r / 4 < width) by {
        vstd::arithmetic::div_mod::lemma_div_is_ordered(r, width * 4 - 1, 4);
        vstd::arithmetic::div_mod::lemma_fundamental_div_mod_converse(width * 4 - 1, 4, width - 1, 3);
    }
}

/// Mirroring a frame twice gives it back.
pub proof fn lemma_mirror_twice(data: Seq<u8>, width: int)
    ensures
        mirrored(mirrored(data, width), width) == data,
{
    let m = mirrored(data, width);
    let mm = mirrored(m, width);
    assert forall|k: int| 0 <= k < data.len() implies mm[k] == data[k] by {
        let rs = width * 4;
        if width >= 2 && k < (data.len() as int / rs) * rs {
            let full = data.len() as int / rs;
            lemma_pixel_split(k, width, full);
            let row = k / rs;
            let x = (k % rs) / 4;
            let c = k % 4;
            let j = row * rs + (width - 1 - x) * 4 + c;
            assert(0 <= (width - 1 - x) * 4 + c < rs);
            lemma_row_split(j, width, row, (width - 1 - x) * 4 + c);
            vstd::arithmetic::div_mod::lemma_fundamental_div_mod_converse((width - 1 - x) * 4 + c, 4, width - 1 - x, c);
            assert((row + 1) * rs <= full * rs) by (nonlinear_arith)
                requires
                    row + 1 <= full,
                    rs > 0,
            ;
            assert((row + 1) * rs == row * rs + rs) by (nonlinear_arith);
            assert(j < full * rs);
            assert(full * rs <= data.len()) by {
                vstd::arithmetic::div_mod::lemma_fundamental_div_mod(data.len() as int, rs);
                vstd::arithmetic::div_mod::lemma_mod_bound(data.len() as int, rs);
                assert(rs * full == full * rs) by (nonlinear_arith);
            }
            assert(m[k] == data[j]);
            assert(mm[k] == m[j]);
        }
    }
    assert(mm =~= data);
}

/// Mirrors the frame left to right, in place.
pub fn mirror_frame_horizontal(frame: &mut OwnedFrame)
    requires
        old(frame).width < 2 || old(frame).width * 4 <= usize::MAX,
    ensures
        final(frame).width == old(frame).width,
        final(frame).height == old(frame).height,
        final(frame).data@ == mirrored(old(frame).data@, old(frame).width as int),
{
    if frame.width < 2 {
        proof {
            assert(mirrored(frame.data@, frame.width as int) =~= frame.data@);
        }
        return;
    }
    let width = frame.width;
    let row_stride = width * 4;
    let len = frame.data.len();
    let full_rows = len / row_stride;
    let ghost old_data = frame.data@;
    let ghost w = width as int;
    let ghost rs = row_stride as int;
    proof {
        vstd::arithmetic::div_mod::lemma_fundamental_div_mod(len as int, rs);
        vstd::arithmetic::div_mod::lemma_mod_bound(len as int, rs);
        assert(rs * full_rows == full_rows * rs) by (nonlinear_arith);
    }
    let mut out: Vec<u8> = Vec::new();
    let mut row: usize = 0;
    while row < full_rows
        invariant
            w >= 2,
            w == width,
            rs == w * 4,
            row_stride == rs,
            old_data == frame.data@,
            len == old_data.len(),
            full_rows == len as int / rs,
            full_rows * rs <= len,
            row <= full_rows,
            out@.len() == row * rs,
            forall|k: int| 0 <= k < out@.len() ==> out@[k] == mirrored_byte(old_data, w, k),
        decreases full_rows - row,
    {
        proof {
            assert((row + 1) * rs <= full_rows * rs) by (nonlinear_arith)
                requires
                    row + 1 <= full_rows,
                    rs >= 0,
            ;
            assert((row + 1) * rs == row * rs + rs) by (nonlinear_arith);
        }
        let start = row * row_stride;
        let mut x: usize = 0;
        while x < width
            invariant
                w >= 2,
                w == width,
                rs == w * 4,
                row_stride == rs,
                old_data == frame.data@,
                len == old_data.len(),
                full_rows == len as int / rs,
                row < full_rows,
                (row + 1) * rs <= full_rows * rs,
                full_rows * rs <= len,
                start == row * rs,
                x <= width,
                out@.len() == row * rs + x * 4,
                forall|k: int| 0 <= k < out@.len() ==> out@[k] == mirrored_byte(old_data, w, k),
            decreases width - x,
        {
            proof {
                assert((row + 1) * rs == row * rs + rs) by (nonlinear_arith);
            }
            let source = start + (width - 1 - x) * 4;
            let mut c: usize = 0;
            while c < 4
                invariant
                    w >= 2,
                    w == width,
                    rs == w * 4,
                    old_data == frame.data@,
                    len == old_data.len(),
                    full_rows == len as int / rs,
                    row < full_rows,
                    (row + 1) * rs <= full_rows * rs,
                    full_rows * rs <= len,
                    start == row * rs,
                    x < width,
                    source == start + (width - 1 - x) * 4,
                    c <= 4,
                    out@.len() == row * rs + x * 4 + c,
                    forall|k: int| 0 <= k < out@.len() ==> out@[k] == mirrored_byte(old_data, w, k),
                decreases 4 - c,
            {
                proof {
                    let k = row * rs + x * 4 + c;
                    lemma_row_split(k, w, row as int, x * 4 + c);
                    vstd::arithmetic::div_mod::lemma_fundamental_div_mod_converse(x * 4 + c, 4, x as int, c as int);
                    assert((row + 1) * rs == row * rs + rs) by (nonlinear_arith);
                    assert(k < full_rows * rs);
                }
                out.push(frame.data[source + c]);
                c = c + 1;
            }
            x = x + 1;
        }
        row = row + 1;
    }
    let mut k: usize = full_rows * row_stride;
    while k < len
        invariant
            w >= 2,
            rs == w * 4,
            old_data == frame.data@,
            len == old_data.len(),
            full_rows == len as int / rs,
            full_rows * rs <= k <= len,
            out@.len() == k,
            forall|i: int| 0 <= i < out@.len() ==> out@[i] == mirrored_byte(old_data, w, i),
        decreases len - k,
    {
        out.push(frame.data[k]);
        k = k + 1;
    }
    frame.data = out;
    proof {
        assert(frame.data@ =~= mirrored(old_data, w));
    }
}

/// Byte `k` of the synthetic smoke-test frame (320 x 180): red grows from
/// left to right, green from top to bottom, blue is 180, alpha 255.
pub open spec fn smoke_byte(k: int) -> u8 {
    let x = (k / 4) % 320;
    let y = k / 1280;
    let c = k % 4;
    if c == 0 {
        (x * 255 / 320) as u8
    } else if c == 1 {
        (y * 255 / 180) as u8
    } else if c == 2 {
        180
    } else {
        255
    }
}

proof fn lemma_smoke_index(y: int, x: int, c: int)
    requires
        0 <= y < 180,
        0 <= x < 320,
        0 <= c < 4,
    ensures
        (y * 1280 + x * 4 + c) / 4 % 320 == x,
        (y * 1280 + x * 4 + c) / 1280 == y,
        (y * 1280 + x * 4 + c) % 4 == c,
{
    let k = y * 1280 + x * 4 + c;
    vstd::arithmetic::div_mod::lemma_fundamental_div_mod_converse(k, 4, y * 320 + x, c);
    vstd::arithmetic::div_mod::lemma_fundamental_div_mod_converse(y * 320 + x, 320, y, x);
    vstd::arithmetic::div_mod::lemma_fundamental_div_mod_converse(k, 1280, y, x * 4 + c);
}

/// The synthetic gradient frame that the smoke test processes and encodes.
pub fn synthetic_smoke_frame() -> (f: OwnedFrame)
    ensures
        f.width == 320,
        f.height == 180,
        f.wf(),
        forall|k: int| 0 <= k < f.data@.len() ==> f.data@[k] == smoke_byte(k),
{
    let width: usize = 320;
    let height: usize = 180;
    let mut data: Vec<u8> = Vec::new();
    let mut y: usize = 0;
    while y < height
        invariant
            width == 320,
            height == 180,
            y <= height,
            data@.len() == y * 1280,
            forall|k: int| 0 <= k < data@.len() ==> data@[k] == smoke_byte(k),
        decreases height - y,
    {
        let mut x: usize = 0;
        while x < width
            invariant
                width == 320,
                height == 180,
                y < height,
                x <= width,
                data@.len() == y * 1280 + x * 4,
                forall|k: int| 0 <= k < data@.len() ==> data@[k] == smoke_byte(k),
            decreases width - x,
        {
            let red = ((x * 255) / width) as u8;
            let green = ((y * 255) / height) as u8;
            let ghost base = y * 1280 + x * 4;
            proof {
                lemma_smoke_index(y as int, x as int, 0);
                lemma_smoke_index(y as int, x as int, 1);
                lemma_smoke_index(y as int, x as int, 2);
                lemma_smoke_index(y as int, x as int, 3);
            }
            data.push(red);
            data.push(green);
            data.push(180);
            data.push(255);
            x = x + 1;
        }
        y = y + 1;
    }
    OwnedFrame { width, height, data }
}

/// The longest edge of a preview frame.
pub const MAX_PREVIEW_LONG_EDGE: usize = 1280;

/// `n / d` rounded to the nearest integer, halves up.
pub open spec fn rounded_ratio(n: int, d: int) -> int {
    (2 * n + d) / (2 * d)
}

/// The preview size for a camera stream: the stream's own size when its
/// longest edge fits, else both edges scaled by `1280 / longest edge`, each
/// rounded to the nearest integer (halves up) and at least 1.
pub open spec fn preview_size(width: int, height: int) -> (int, int) {
    let long_edge = if width >= height { width } else { height };
    if long_edge <= MAX_PREVIEW_LONG_EDGE {
        (width, height)
    } else {
        let w = rounded_ratio(width * MAX_PREVIEW_LONG_EDGE, long_edge);
        let h = rounded_ratio(height * MAX_PREVIEW_LONG_EDGE, long_edge);
        (if w < 1 { 1 } else { w }, if h < 1 { 1 } else { h })
    }
}

fn scaled_edge(edge: usize, long_edge: usize) -> (r: usize)
    requires
        long_edge > MAX_PREVIEW_LONG_EDGE,
        edge <= long_edge,
    ensures
        r == (if rounded_ratio(edge * MAX_PREVIEW_LONG_EDGE, long_edge as int) < 1 {
            1
        } else {
            rounded_ratio(edge * MAX_PREVIEW_LONG_EDGE, long_edge as int)
        }),
{
    let n: u128 = edge as u128 * 1280;
    let d: u128 = long_edge as u128;
    proof {
        assert(edge * 1280 <= long_edge * 1280) by (nonlinear_arith)
            requires
                edge <= long_edge,
        ;
    }
    let q: u128 = (2 * n + d) / (2 * d);
    proof {
        let x = (2 * n + d) as int;
        let m = (2 * d) as int;
        vstd::arithmetic::div_mod::lemma_fundamental_div_mod(x, m);
        vstd::arithmetic::div_mod::lemma_mod_bound(x, m);
        assert(m * (x / m) <= x);
        assert(x < m * 1281) by (nonlinear_arith)
            requires
                x == 2 * n + d,
                m == 2 * d,
                n <= d * 1280,
                d > 0,
        ;
        assert(x / m < 1281) by (nonlinear_arith)
            requires
                m * (x / m) <= x,
                x < m * 1281,
                m > 0,
        ;
    }
    if q < 1 {
        1
    } else {
        q as usize
    }
}

/// The size of the preview frames for a camera stream (see `preview_size`).
pub fn preview_dimensions(width: usize, height: usize) -> (r: (usize, usize))
    ensures
        (r.0 as int, r.1 as int) == preview_size(width as int, height as int),
{
    let long_edge = if width >= height { width } else { height };
    if long_edge <= MAX_PREVIEW_LONG_EDGE {
        return (width, height);
    }
    (scaled_edge(width, long_edge), scaled_edge(height, long_edge))
}

/// The bytes of the frame that packing a strided buffer gives.
pub open spec fn packed_bytes(source: Seq<u8>, width: int, height: int, stride: int) -> Seq<u8> {
    Seq::new((width * height * 4) as nat, |k: int| strided_byte(source, width, stride, k))
}

/// Byte `k` of a frame packed straight at the target size is the byte that
/// nearest-neighbour scaling takes from the frame packed at its own size.
pub open spec fn scaling_agrees(
    source: Seq<u8>,
    source_width: int,
    source_height: int,
    stride: int,
    target_width: int,
    target_height: int,
    k: int,
) -> bool {
    let j = nearest_index(source_width, source_height, target_width, target_height, k);
    &&& 0 <= j < source_width * source_height * 4
    &&& scaled_byte(source, source_width, source_height, stride, target_width, target_height, k)
        == packed_bytes(source, source_width, source_height, stride)[j]
}

/// Packing a buffer straight into a smaller or larger frame gives the same
/// bytes as packing it at its own size and then scaling the packed frame by
/// nearest neighbour.
pub proof fn lemma_scaled_packing_is_packing_then_scaling(
    source: Seq<u8>,
    source_width: int,
    source_height: int,
    stride: int,
    target_width: int,
    target_height: int,
)
    requires
        source_width > 0,
        source_height > 0,
        target_width > 0,
        target_height > 0,
    ensures
        forall|k: int|
            0 <= k < target_width * target_height * 4 ==> #[trigger] scaling_agrees(
                source,
                source_width,
                source_height,
                stride,
                target_width,
                target_height,
                k,
            ),
{
    let sw = source_width;
    let sh = source_height;
    let tw = target_width;
    let th = target_height;
    assert forall|k: int| 0 <= k < tw * th * 4 implies #[trigger] scaling_agrees(source, sw, sh, stride, tw, th, k) by {
        assert(tw * th * 4 == th * (tw * 4)) by (nonlinear_arith);
        lemma_pixel_split(k, tw, th);
        let ty = k / (tw * 4);
        let tx = (k % (tw * 4)) / 4;
        let c = k % 4;
        let row = ty * sh / th;
        let col = tx * sw / tw;
        lemma_proportional_position(ty, th, sh);
        lemma_proportional_position(tx, tw, sw);
        let r = col * 4 + c;
        assert(0 <= r < sw * 4);
        let j = row * (sw * 4) + r;
        assert(j == (row * sw + col) * 4 + c) by (nonlinear_arith)
            requires
                j == row * (sw * 4) + r,
                r == col * 4 + c,
        ;
        assert(j == nearest_index(sw, sh, tw, th, k));
        lemma_row_split(j, sw, row, r);
        assert(r % 4 == c) by {
            vstd::arithmetic::div_mod::lemma_fundamental_div_mod_converse(r, 4, col, c);
        }
        assert(0 <= j < sw * sh * 4) by (nonlinear_arith)
            requires
                j == row * (sw * 4) + r,
                0 <= row < sh,
                0 <= r < sw * 4,
                sw > 0,
        ;
        assert(j % 4 == c);
        let p = packed_bytes(source, sw, sh, stride);
        assert(p[j] == strided_byte(source, sw, stride, j));
        if c == 3 {
            assert(strided_byte(source, sw, stride, j) == 255);
        } else {
            assert(strided_byte(source, sw, stride, j) == source[row * stride + r]);
            assert(scaled_byte(source, sw, sh, stride, tw, th, k) == source[row * stride + col * 4 + c]);
        }
    }
}

/// A position proportional to `i` of `n` within `m` lies inside `m`.
proof fn lemma_proportional_position(i: int, n: int, m: int)
    requires
        0 <= i < n,
        m > 0,
    ensures
        0 <= i * m / n < m,
{
    assert(i * m < n * m) by (nonlinear_arith)
        requires
            i < n,
            m > 0,
    ;
    assert(0 <= i * m) by (nonlinear_arith)
        requires
            i >= 0,
            m > 0,
    ;
    vstd::arithmetic::div_mod::lemma_div_pos_is_pos(i * m, n);
    vstd::arithmetic::div_mod::lemma_fundamental_div_mod(i * m, n);
    vstd::arithmetic::div_mod::lemma_mod_bound(i * m, n);
    let q = i * m / n;
    assert(q < m) by (nonlinear_arith)
        requires
            n * q <= i * m,
            i * m < n * m,
            n > 0,
    ;
}

} // verus!
