//! Contas com inteiros da biblioteca padrão da linguagem: a potência inteira
//! e o passo do gerador pseudoaleatório.

use vstd::prelude::*;

verus! {

/// `b` elevado a `e`.
pub open spec fn potencia_spec(b: int, e: nat) -> int
    decreases e,
{
    if e == 0 {
        1
    } else {
        b * potencia_spec(b, (e - 1) as nat)
    }
}

/// O valor cabe num inteiro de 64 bits com sinal.
pub open spec fn cabe_i64(x: int) -> bool {
    i64::MIN <= x <= i64::MAX
}

pub open spec fn abs(x: int) -> int {
    if x < 0 {
        -x
    } else {
        x
    }
}

proof fn lema_abs_produto(a: int, b: int)
    ensures
        abs(a * b) == abs(a) * abs(b),
{
    if a >= 0 && b >= 0 {
        assert(a * b >= 0) by (nonlinear_arith)
            requires
                a >= 0,
                b >= 0,
        ;
    } else if a < 0 && b >= 0 {
        assert(a * b <= 0 && abs(a * b) == (-a) * b) by (nonlinear_arith)
            requires
                a < 0,
                b >= 0,
        ;
    } else if a >= 0 && b < 0 {
        assert(a * b <= 0 && abs(a * b) == a * (-b)) by (nonlinear_arith)
            requires
                a >= 0,
                b < 0,
        ;
    } else {
        assert(a * b > 0 && a * b == (-a) * (-b)) by (nonlinear_arith)
            requires
                a < 0,
                b < 0,
        ;
    }
}

/// Com base de módulo pelo menos 2, cada multiplicação ao menos dobra o módulo.
proof fn lema_potencia_dobra(b: int, e: nat)
    requires
        abs(b) >= 2,
    ensures
        abs(potencia_spec(b, e)) >= 1,
        abs(potencia_spec(b, e + 1)) >= 2 * abs(potencia_spec(b, e)),
    decreases e,
{
    if e > 0 {
        lema_potencia_dobra(b, (e - 1) as nat);
    }
    let p = potencia_spec(b, e);
    assert(potencia_spec(b, e + 1) == b * p);
    lema_abs_produto(b, p);
    assert(abs(b) * abs(p) >= 2 * abs(p)) by (nonlinear_arith)
        requires
            abs(b) >= 2,
            abs(p) >= 0,
    ;
}

/// Com base de módulo pelo menos 2, o módulo da potência não diminui com o
/// expoente.
proof fn lema_potencia_monotona(b: int, e1: nat, e2: nat)
    requires
        abs(b) >= 2,
        e1 <= e2,
    ensures
        abs(potencia_spec(b, e2)) >= abs(potencia_spec(b, e1)),
    decreases e2 - e1,
{
    if e1 < e2 {
        lema_potencia_monotona(b, e1, (e2 - 1) as nat);
        lema_potencia_dobra(b, (e2 - 1) as nat);
    }
}

proof fn lema_potencia_zero(e: nat)
    requires
        e > 0,
    ensures
        potencia_spec(0, e) == 0,
{
}

proof fn lema_potencia_um(e: nat)
    ensures
        potencia_spec(1, e) == 1,
    decreases e,
{
    if e > 0 {
        lema_potencia_um((e - 1) as nat);
    }
}

proof fn lema_potencia_menos_um(e: nat)
    ensures
        potencia_spec(-1, e) == (if e % 2 == 0 {
            1int
        } else {
            -1int
        }),
    decreases e,
{
    if e > 0 {
        lema_potencia_menos_um((e - 1) as nat);
    }
}

/// Potência inteira: `base` elevado a `exp`, quando o expoente vai de 0 a
/// `u32::MAX` e o resultado cabe num inteiro de 64 bits; senão nada (quem
/// chama passa a calcular com decimais).
pub fn potencia_inteira(base: i64, exp: i64) -> (r: Option<i64>)
    ensures
        r is Some <==> (0 <= exp <= u32::MAX && cabe_i64(potencia_spec(base as int, exp as nat))),
        r matches Some(v) ==> v == potencia_spec(base as int, exp as nat),
{
    if exp < 0 || exp > 4294967295i64 {
        return None;
    }
    if base == 0 {
        if exp == 0 {
            return Some(1);
        }
        proof {
            lema_potencia_zero(exp as nat);
        }
        return Some(0);
    }
    if base == 1 {
        proof {
            lema_potencia_um(exp as nat);
        }
        return Some(1);
    }
    if base == -1 {
        proof {
            lema_potencia_menos_um(exp as nat);
        }
        return if exp % 2 == 0 {
            Some(1)
        } else {
            Some(-1)
        };
    }
    assert(abs(base as int) >= 2);
    let mut acc: i64 = 1;
    let mut i: i64 = 0;
    while i < exp
        invariant
            0 <= i <= exp,
            exp <= u32::MAX,
            abs(base as int) >= 2,
            acc == potencia_spec(base as int, i as nat),
        decreases exp - i,
    {
        match base.checked_mul(acc) {
            Some(v) => {
                acc = v;
                i = i + 1;
            },
            None => {
                proof {
                    let p = potencia_spec(base as int, (i + 1) as nat);
                    assert(p == base * acc);
                    assert(!cabe_i64(p));
                    lema_potencia_monotona(base as int, (i + 1) as nat, exp as nat);
                    if exp > i + 1 {
                        lema_potencia_monotona(base as int, (i + 2) as nat, exp as nat);
                        lema_potencia_dobra(base as int, (i + 1) as nat);
                    }
                }
                return None;
            },
        }
    }
    Some(acc)
}

/// Um passo do gerador xorshift64: três trocas de bits por deslocamento.
pub open spec fn xorshift(x: u64) -> u64 {
    let a = x ^ (x << 13u64);
    let b = a ^ (a >> 7u64);
    b ^ (b << 17u64)
}

/// O próximo estado do gerador pseudoaleatório. Um estado diferente de zero
/// nunca leva a zero, então o gerador não fica preso.
pub fn passo_aleatorio(x: u64) -> (r: u64)
    ensures
        r == xorshift(x),
        x != 0 ==> r != 0,
{
    let a = x ^ (x << 13u64);
    let b = a ^ (a >> 7u64);
    let c = b ^ (b << 17u64);
    assert(x != 0 ==> a != 0) by (bit_vector)
        requires
            a == x ^ (x << 13u64),
    ;
    assert(a != 0 ==> b != 0) by (bit_vector)
        requires
            b == a ^ (a >> 7u64),
    ;
    assert(b != 0 ==> c != 0) by (bit_vector)
        requires
            c == b ^ (b << 17u64),
    ;
    c
}

} // verus!
