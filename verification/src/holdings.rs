//! The summary of one line of a portfolio kept in whole shares: what was bought and
//! sold of a security, and at what average prices.

use vstd::prelude::*;
use vstd::string::StringExecFns;
use crate::cash::sum_of;
use crate::error::LedgerError;
use crate::units::amount_add;
use crate::units::amount_div_floor;
use crate::units::floor_div;
use crate::units::in_range;

verus! {

/// One recorded movement of a security: `compra` or `venta`, a number of whole
/// shares, and the price of one share in millionths.
#[derive(Clone, Debug)]
pub struct Movimiento {
    pub tipo: String,
    pub cantidad: i32,
    pub precio: i64,
}

/// The shares that a movement buys.
pub open spec fn comprado(m: Movimiento) -> int {
    if m.tipo@ == "compra"@ {
        m.cantidad as int
    } else {
        0
    }
}

/// The shares that a movement sells.
pub open spec fn vendido(m: Movimiento) -> int {
    if m.tipo@ == "venta"@ {
        m.cantidad as int
    } else {
        0
    }
}

/// What a movement pays for the shares it buys.
pub open spec fn pagado(m: Movimiento) -> int {
    comprado(m) * m.precio
}

/// What a movement takes in for the shares it sells.
pub open spec fn cobrado(m: Movimiento) -> int {
    vendido(m) * m.precio
}

/// The shares bought by a list of movements.
pub open spec fn total_comprado(movimientos: Seq<Movimiento>) -> int {
    sum_of(movimientos, |m: Movimiento| comprado(m))
}

/// The shares sold by a list of movements.
pub open spec fn total_vendido(movimientos: Seq<Movimiento>) -> int {
    sum_of(movimientos, |m: Movimiento| vendido(m))
}

/// What a list of movements pays for its purchases.
pub open spec fn total_pagado(movimientos: Seq<Movimiento>) -> int {
    sum_of(movimientos, |m: Movimiento| pagado(m))
}

/// What a list of movements takes in for its sales.
pub open spec fn total_cobrado(movimientos: Seq<Movimiento>) -> int {
    sum_of(movimientos, |m: Movimiento| cobrado(m))
}

/// Whether the ledger can hold the amounts paid and taken in after each movement of
/// a list.
pub open spec fn movimientos_fit(movimientos: Seq<Movimiento>) -> bool {
    forall|n: int| 0 <= n <= movimientos.len() ==> #[trigger] fits_through(movimientos, n)
}

/// Whether the ledger can hold the amounts paid and taken in by the first `n`
/// movements of a list.
pub open spec fn fits_through(movimientos: Seq<Movimiento>, n: int) -> bool {
    in_range(total_pagado(movimientos.take(n))) && in_range(total_cobrado(movimientos.take(n)))
}

/// An average price: the amount over the shares, rounded down, and 0 where the
/// shares are not positive.
pub open spec fn promedio(monto: int, cantidad: int) -> int {
    if cantidad > 0 {
        floor_div(monto, cantidad)
    } else {
        0
    }
}

/// What is held of one security: the shares bought less the shares sold, the
/// average price of the purchases, the shares sold, and the average price of the
/// sales. Prices are in millionths.
#[derive(Clone, Copy, Debug, PartialEq, Eq, Structural)]
pub struct ResumenHolding {
    pub cantidad_actual: i128,
    pub precio_promedio: i128,
    pub vendidas: i128,
    pub precio_promedio_venta: i128,
}

/// The summary of a list of movements.
pub open spec fn resumen_de(movimientos: Seq<Movimiento>) -> ResumenHolding {
    let compradas = total_comprado(movimientos);
    let vendidas = total_vendido(movimientos);
    ResumenHolding {
        cantidad_actual: (compradas - vendidas) as i128,
        precio_promedio: promedio(total_pagado(movimientos), compradas) as i128,
        vendidas: vendidas as i128,
        precio_promedio_venta: promedio(
            total_cobrado(movimientos),
            vendidas,
        ) as i128,
    }
}

/// Sums up the movements of one security. Movements of another type than `compra`
/// and `venta` count for nothing. Fails where the amount paid or taken in is, after
/// some movement, more than 128 bits hold.
pub fn listar_holdings(movimientos: &Vec<Movimiento>) -> (r: Result<ResumenHolding, LedgerError>)
    ensures
        match r {
            Ok(resumen) => movimientos_fit(movimientos@) && resumen == resumen_de(movimientos@),
            Err(e) => e == LedgerError::Overflow && !movimientos_fit(movimientos@),
        },
{
    let compra = String::from_str("compra");
    let venta = String::from_str("venta");
    let mut compradas: i128 = 0;
    let mut vendidas: i128 = 0;
    let mut pagos: i128 = 0;
    let mut cobros: i128 = 0;
    let mut i: usize = 0;
    assert(movimientos@.take(0).len() == 0);
    while i < movimientos.len()
        invariant
            i <= movimientos.len(),
            compra@ == "compra"@,
            venta@ == "venta"@,
            compradas == total_comprado(movimientos@.take(i as int)),
            vendidas == total_vendido(movimientos@.take(i as int)),
            pagos == total_pagado(movimientos@.take(i as int)),
            cobros == total_cobrado(movimientos@.take(i as int)),
            -(i * 0x8000_0000) <= compradas <= i * 0x8000_0000,
            -(i * 0x8000_0000) <= vendidas <= i * 0x8000_0000,
            in_range(pagos as int),
            in_range(cobros as int),
            forall|n: int| 0 <= n <= i ==> #[trigger] fits_through(movimientos@, n),
        decreases movimientos.len() - i,
    {
        let m = &movimientos[i];
        proof {
            assert(movimientos@.take(i + 1).drop_last() =~= movimientos@.take(i as int));
            reveal_strlit("compra");
            reveal_strlit("venta");
            assert("compra"@.len() != "venta"@.len());
        }
        let cantidad: i128 = m.cantidad as i128;
        let precio: i128 = m.precio as i128;
        assert(-0x4000_0000_0000_0000_0000_0000 <= cantidad * precio
            <= 0x4000_0000_0000_0000_0000_0000) by (nonlinear_arith)
            requires
                -0x8000_0000 <= cantidad <= 0x7fff_ffff,
                -0x8000_0000_0000_0000 <= precio <= 0x7fff_ffff_ffff_ffff,
        ;
        let monto: i128 = cantidad * precio;
        if m.tipo == compra {
            compradas = compradas + cantidad;
            match amount_add(pagos, monto) {
                Some(sum) => {
                    pagos = sum;
                },
                None => {
                    assert(!fits_through(movimientos@, i + 1));
                    return Err(LedgerError::Overflow);
                },
            }
        } else if m.tipo == venta {
            vendidas = vendidas + cantidad;
            match amount_add(cobros, monto) {
                Some(sum) => {
                    cobros = sum;
                },
                None => {
                    assert(!fits_through(movimientos@, i + 1));
                    return Err(LedgerError::Overflow);
                },
            }
        }
        assert(fits_through(movimientos@, i + 1));
        i = i + 1;
    }
    assert(movimientos@.take(i as int) =~= movimientos@);
    let precio_promedio: i128 = if compradas > 0 {
        amount_div_floor(pagos, compradas)
    } else {
        0
    };
    let precio_promedio_venta: i128 = if vendidas > 0 {
        amount_div_floor(cobros, vendidas)
    } else {
        0
    };
    Ok(
        ResumenHolding {
            cantidad_actual: compradas - vendidas,
            precio_promedio,
            vendidas,
            precio_promedio_venta,
        },
    )
}

} // verus!
